use wio_umwelt_monitor::bus::{Reply, Request, Step};
use wio_umwelt_monitor::reading::Reading;
use wio_umwelt_monitor::scd30::{
    decode_frame, write_command, CommandPhase, InitPhase, QueryPhase, SCD30,
};

fn value(reading: Reading) -> f64 {
    let magnitude = reading.mantissa as f64 * 2f64.powi(reading.exponent);
    if reading.negative {
        -magnitude
    } else {
        magnitude
    }
}

fn frame_of(co2: f32, temperature: f32, humidity: f32, checksum: u8) -> Vec<u8> {
    let mut frame = Vec::new();
    for quantity in [co2, temperature, humidity] {
        let bytes = quantity.to_bits().to_be_bytes();
        frame.extend_from_slice(&[bytes[0], bytes[1], checksum, bytes[2], bytes[3], checksum]);
    }
    frame
}

fn written(step: Step<CommandPhase, Result<(), ()>>) -> (u8, Vec<u8>, CommandPhase) {
    match step {
        Step::Perform { request: Request::Write { address, bytes }, next } => (address, bytes, next),
        _ => panic!("a write was expected"),
    }
}

fn finished<P, T>(step: Step<P, T>) -> T {
    match step {
        Step::Finished(result) => result,
        Step::Perform { .. } => panic!("the operation went on"),
    }
}

#[test]
fn command_frame_carries_argument_and_checksum() {
    assert_eq!(write_command(0x4600, 0x000C), vec![0x46, 0x00, 0x00, 0x0C, 0xFC]);
    assert_eq!(write_command(0x0010, 0x0000), vec![0x00, 0x10, 0x00, 0x00, 0x81]);
    assert_eq!(write_command(0x1234, 0xBEEF), vec![0x12, 0x34, 0xBE, 0xEF, 0x92]);
}

#[test]
fn set_measurement_interval_writes_one_frame() {
    let sensor = SCD30::new();
    let (address, bytes, next) = written(sensor.set_measurement_interval(12, CommandPhase::Start, &Reply::Done));
    assert_eq!(address, 0x61);
    assert_eq!(bytes, vec![0x46, 0x00, 0x00, 0x0C, 0xFC]);
    assert_eq!(next, CommandPhase::Sent);
    assert_eq!(finished(sensor.set_measurement_interval(12, next, &Reply::Done)), Ok(()));
    assert_eq!(finished(sensor.set_measurement_interval(12, next, &Reply::Failed)), Err(()));
}

#[test]
fn set_measurement_interval_splits_the_argument() {
    let sensor = SCD30::new();
    let (_, bytes, _) = written(sensor.set_measurement_interval(0x0102, CommandPhase::Start, &Reply::Done));
    assert_eq!(&bytes[..4], &[0x46, 0x00, 0x01, 0x02]);
}

#[test]
fn start_periodic_measurement_writes_one_frame() {
    let sensor = SCD30::new();
    let (address, bytes, next) = written(sensor.start_periodic_measurment(CommandPhase::Start, &Reply::Done));
    assert_eq!(address, 0x61);
    assert_eq!(bytes, vec![0x00, 0x10, 0x00, 0x00, 0x81]);
    assert_eq!(finished(sensor.start_periodic_measurment(next, &Reply::Done)), Ok(()));
    assert_eq!(finished(sensor.start_periodic_measurment(next, &Reply::Failed)), Err(()));
}

#[test]
fn auto_calibration_on_and_off() {
    let sensor = SCD30::new();
    let (_, on, _) = written(sensor.set_auto_calibration(true, CommandPhase::Start, &Reply::Done));
    assert_eq!(on, vec![0x53, 0x06, 0x00, 0x01, 0xB0]);
    let (_, off, _) = written(sensor.set_auto_calibration(false, CommandPhase::Start, &Reply::Done));
    assert_eq!(off, vec![0x53, 0x06, 0x00, 0x00, 0x81]);
    assert_eq!(finished(sensor.set_auto_calibration(true, CommandPhase::Sent, &Reply::Failed)), Err(()));
    assert_eq!(finished(sensor.set_auto_calibration(true, CommandPhase::Sent, &Reply::Done)), Ok(()));
}

#[test]
fn stop_measurement_writes_two_bytes() {
    let sensor = SCD30::new();
    let (address, bytes, next) = written(sensor.stop_measurement(CommandPhase::Start, &Reply::Done));
    assert_eq!(address, 0x61);
    assert_eq!(bytes, vec![0x01, 0x04]);
    assert_eq!(finished(sensor.stop_measurement(next, &Reply::Done)), Ok(()));
    assert_eq!(finished(sensor.stop_measurement(next, &Reply::Failed)), Err(()));
}

#[test]
fn a_write_answered_with_data_counts_as_failed() {
    let sensor = SCD30::new();
    assert_eq!(finished(sensor.stop_measurement(CommandPhase::Sent, &Reply::Data(vec![1]))), Err(()));
}

#[test]
fn start_up_sets_the_interval_then_starts() {
    let sensor = SCD30::new();
    let mut log = Vec::new();
    let mut phase = InitPhase::Start;
    let mut reply = Reply::Done;
    let result = loop {
        match sensor.init(12, phase, &reply) {
            Step::Perform { request, next } => {
                match request {
                    Request::Write { address, bytes } => log.push((address, bytes)),
                    _ => panic!("a write was expected"),
                }
                reply = Reply::Done;
                phase = next;
            }
            Step::Finished(result) => break result,
        }
    };
    assert_eq!(result, Ok(()));
    assert_eq!(
        log,
        vec![(0x61, vec![0x46, 0x00, 0x00, 0x0C, 0xFC]), (0x61, vec![0x00, 0x10, 0x00, 0x00, 0x81])]
    );
}

#[test]
fn start_up_stops_at_the_first_failed_write() {
    let sensor = SCD30::new();
    assert_eq!(finished(sensor.init(12, InitPhase::Interval, &Reply::Failed)), Err(()));
    assert_eq!(finished(sensor.init(12, InitPhase::Measurement, &Reply::Failed)), Err(()));
    assert_eq!(finished(sensor.init(12, InitPhase::Measurement, &Reply::Done)), Ok(()));
}

#[test]
fn availability_poll_writes_then_reads_two_bytes() {
    let sensor = SCD30::new();
    match sensor.is_available(QueryPhase::Start, &Reply::Done) {
        Step::Perform { request: Request::Write { address, bytes }, next } => {
            assert_eq!(address, 0x61);
            assert_eq!(bytes, vec![0x02, 0x02]);
            assert_eq!(next, QueryPhase::Asked);
        }
        _ => panic!("a write was expected"),
    }
    match sensor.is_available(QueryPhase::Asked, &Reply::Done) {
        Step::Perform { request: Request::Read { address, count }, next } => {
            assert_eq!(address, 0x61);
            assert_eq!(count, 2);
            assert_eq!(next, QueryPhase::Answer);
        }
        _ => panic!("a read was expected"),
    }
}

#[test]
fn availability_is_any_nonzero_byte() {
    let sensor = SCD30::new();
    for (status, expected) in [([0u8, 0u8], false), ([0, 1], true), ([1, 0], true), ([0xFF, 0xFF], true)] {
        let reply = Reply::Data(status.to_vec());
        assert_eq!(finished(sensor.is_available(QueryPhase::Answer, &reply)), Ok(expected));
    }
}

#[test]
fn availability_poll_reports_bus_errors() {
    let sensor = SCD30::new();
    assert_eq!(finished(sensor.is_available(QueryPhase::Asked, &Reply::Failed)), Err(()));
    assert_eq!(finished(sensor.is_available(QueryPhase::Answer, &Reply::Failed)), Err(()));
    assert_eq!(finished(sensor.is_available(QueryPhase::Answer, &Reply::Data(vec![1]))), Err(()));
    assert_eq!(finished(sensor.is_available(QueryPhase::Answer, &Reply::Done)), Err(()));
}

#[test]
fn measurement_writes_then_reads_eighteen_bytes() {
    let sensor = SCD30::new();
    match sensor.get_value(QueryPhase::Start, &Reply::Done) {
        Step::Perform { request: Request::Write { address, bytes }, next } => {
            assert_eq!(address, 0x61);
            assert_eq!(bytes, vec![0x03, 0x00]);
            assert_eq!(next, QueryPhase::Asked);
        }
        _ => panic!("a write was expected"),
    }
    match sensor.get_value(QueryPhase::Asked, &Reply::Done) {
        Step::Perform { request: Request::Read { address, count }, next } => {
            assert_eq!(address, 0x61);
            assert_eq!(count, 18);
            assert_eq!(next, QueryPhase::Answer);
        }
        _ => panic!("a read was expected"),
    }
}

#[test]
fn measurement_decodes_three_quantities() {
    let sensor = SCD30::new();
    let reply = Reply::Data(frame_of(415.0, 23.5, 45.0, 0x00));
    let (co2, temperature, humidity) = finished(sensor.get_value(QueryPhase::Answer, &reply)).unwrap();
    assert!((value(co2) - 415.0).abs() < 1e-6);
    assert!((value(temperature) - 23.5).abs() < 1e-6);
    assert!((value(humidity) - 45.0).abs() < 1e-6);
    assert_eq!(co2.to_thousandths(), 415_000);
    assert_eq!(temperature.to_thousandths(), 23_500);
    assert_eq!(humidity.to_thousandths(), 45_000);
}

#[test]
fn measurement_ignores_the_checksum_bytes() {
    let plain = decode_frame(&frame_of(415.0, 23.5, 45.0, 0x00)).unwrap();
    let other = decode_frame(&frame_of(415.0, 23.5, 45.0, 0xA5)).unwrap();
    assert_eq!(plain, other);
}

#[test]
fn measurement_reads_the_bytes_in_big_endian_order() {
    let mut frame = vec![0u8; 18];
    frame[0] = 0x40;
    frame[1] = 0x49;
    frame[2] = 0xEE;
    frame[3] = 0x0F;
    frame[4] = 0xDB;
    let (co2, temperature, humidity) = decode_frame(&frame).unwrap();
    assert_eq!(co2, Reading::from_binary32(0x4049_0FDB));
    assert_eq!(temperature, Reading::from_binary32(0));
    assert_eq!(humidity, Reading::from_binary32(0));
}

#[test]
fn measurement_reports_bus_errors() {
    let sensor = SCD30::new();
    assert_eq!(finished(sensor.get_value(QueryPhase::Asked, &Reply::Failed)), Err(()));
    assert_eq!(finished(sensor.get_value(QueryPhase::Answer, &Reply::Failed)), Err(()));
    assert_eq!(finished(sensor.get_value(QueryPhase::Answer, &Reply::Data(vec![0; 17]))), Err(()));
    assert_eq!(decode_frame(&vec![0; 17]), None);
    assert_eq!(decode_frame(&vec![0; 19]), None);
}
