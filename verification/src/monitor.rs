//! One sensing cycle over both sensors, and the count of seconds that
//! tells when the next one is due.

use crate::bm1383aglv::{value_step, ReadPhase, BM1383AGLV};
use crate::bus::{Reply, ReplyView, RequestView, Step, StepView};
use crate::reading::Reading;
use crate::scd30::{availability_step, measurement_step, QueryPhase, SCD30};
use vstd::prelude::*;

verus! {

/// Seconds between two sensing cycles.
pub const SENSING_INTERVAL: u16 = 12;

/// The count of seconds starts over after this many.
pub const SECONDS_PER_ROUND: u16 = 60;

/// A CO2 sample below 100 ppm is taken for a failed measurement.
pub const CO2_FLOOR: i32 = 100_000;

/// The samples of one cycle: whether they are usable, then temperature,
/// humidity, CO2 and pressure in thousandths.
pub type SensorValues = (bool, i32, i32, i32, i32);

/// Where a sensing cycle stands.
#[derive(Clone, Copy, Debug, PartialEq, Eq, Structural)]
pub enum PollPhase {
    /// Asking the CO2 sensor whether a measurement waits.
    Availability(QueryPhase),
    /// Reading the CO2 sensor.
    Measurement(QueryPhase),
    /// Reading the barometer, with the samples of the CO2 sensor in hand.
    Pressure { tmp: i32, hum: i32, co2: i32, phase: ReadPhase },
}

/// The result of a cycle that brought nothing.
pub open spec fn nothing() -> SensorValues {
    (false, 0, 0, 0, 0)
}

/// A step of the cycle that asks for `request`.
pub open spec fn poll_perform(request: RequestView, next: PollPhase) -> StepView<
    PollPhase,
    SensorValues,
> {
    StepView::Perform { request, next }
}

/// A step that ends the cycle.
pub open spec fn poll_finished(values: SensorValues) -> StepView<PollPhase, SensorValues> {
    StepView::Finished(values)
}

/// The cycle while it reads the barometer. A reading makes the samples
/// usable; an error leaves the samples of the CO2 sensor in place, marked
/// as not usable.
pub open spec fn pressure_step(
    enabled: bool,
    tmp: i32,
    hum: i32,
    co2: i32,
    phase: ReadPhase,
    reply: ReplyView,
) -> StepView<PollPhase, SensorValues> {
    match value_step(enabled, phase, reply) {
        StepView::Perform { request, next } => poll_perform(
            request,
            PollPhase::Pressure { tmp, hum, co2, phase: next },
        ),
        StepView::Finished(Ok(measurement)) => poll_finished(
            (true, tmp, hum, co2, measurement.1.thousandths() as i32),
        ),
        StepView::Finished(Err(_)) => poll_finished((false, tmp, hum, co2, 0)),
    }
}

/// The cycle once the CO2 sensor has been read: a CO2 sample under the
/// floor brings nothing; otherwise the barometer is read where there is
/// one, and without one the pressure is zero.
pub open spec fn after_measurement(
    enabled: bool,
    is_barometer_available: bool,
    readings: (Reading, Reading, Reading),
    reply: ReplyView,
) -> StepView<PollPhase, SensorValues> {
    let co2 = readings.0.thousandths() as i32;
    let tmp = readings.1.thousandths() as i32;
    let hum = readings.2.thousandths() as i32;
    if co2 < CO2_FLOOR {
        poll_finished(nothing())
    } else if is_barometer_available {
        pressure_step(enabled, tmp, hum, co2, ReadPhase::Start, reply)
    } else {
        poll_finished((true, tmp, hum, co2, 0))
    }
}

/// The cycle while it reads the CO2 sensor.
pub open spec fn gas_step(
    address: u8,
    enabled: bool,
    is_barometer_available: bool,
    phase: QueryPhase,
    reply: ReplyView,
) -> StepView<PollPhase, SensorValues> {
    match measurement_step(address, phase, reply) {
        StepView::Perform { request, next } => poll_perform(request, PollPhase::Measurement(next)),
        StepView::Finished(Ok(readings)) => after_measurement(
            enabled,
            is_barometer_available,
            readings,
            reply,
        ),
        StepView::Finished(Err(_)) => poll_finished(nothing()),
    }
}

/// One step of a sensing cycle: ask the CO2 sensor whether a measurement
/// waits, read it if so, then read the barometer. Whatever fails on the way
/// ends the cycle without usable samples.
pub open spec fn poll_step(
    address: u8,
    enabled: bool,
    is_barometer_available: bool,
    phase: PollPhase,
    reply: ReplyView,
) -> StepView<PollPhase, SensorValues> {
    match phase {
        PollPhase::Availability(query) => match availability_step(address, query, reply) {
            StepView::Perform { request, next } => poll_perform(
                request,
                PollPhase::Availability(next),
            ),
            StepView::Finished(Ok(true)) => gas_step(
                address,
                enabled,
                is_barometer_available,
                QueryPhase::Start,
                reply,
            ),
            StepView::Finished(_) => poll_finished(nothing()),
        },
        PollPhase::Measurement(query) => gas_step(
            address,
            enabled,
            is_barometer_available,
            query,
            reply,
        ),
        PollPhase::Pressure { tmp, hum, co2, phase } => pressure_step(
            enabled,
            tmp,
            hum,
            co2,
            phase,
            reply,
        ),
    }
}

/// The count of seconds after one more second.
pub open spec fn next_second(second: u16) -> u16 {
    ((second + 1) % (SECONDS_PER_ROUND as int)) as u16
}

/// The count of seconds after `count` more seconds.
pub open spec fn seconds_later(second: u16, count: nat) -> u16
    decreases count,
{
    if count == 0 {
        second
    } else {
        next_second(seconds_later(second, (count - 1) as nat))
    }
}

/// Whether a sensing cycle is due: the count stands at a multiple of the
/// interval, and no cycle was run at this count yet.
pub open spec fn sensing_due(second: u16, updated_second: u16) -> bool {
    second % SENSING_INTERVAL == 0 && updated_second != second
}

/// What the buttons lead to: whether the backlight is on afterwards, and
/// whether the next quantity is to be shown. While the backlight is on, the
/// right button switches it off and a press on the stick shows the next
/// quantity; while it is off, any button switches it on and does nothing
/// else.
pub open spec fn buttons_step(
    is_lcd_on: bool,
    right: bool,
    center: bool,
    left: bool,
    press: bool,
) -> (bool, bool) {
    if is_lcd_on {
        (!right, press)
    } else {
        (right || center || left || press, false)
    }
}

/// The phase in which a sensing cycle starts.
pub fn start_of_cycle() -> (phase: PollPhase)
    ensures
        phase == PollPhase::Availability(QueryPhase::Start),
{
    PollPhase::Availability(QueryPhase::Start)
}

fn read_pressure(
    barometer: &BM1383AGLV,
    tmp: i32,
    hum: i32,
    co2: i32,
    phase: ReadPhase,
    reply: &Reply,
) -> (step: Step<PollPhase, SensorValues>)
    ensures
        step@ == pressure_step(barometer.enabled(), tmp, hum, co2, phase, reply@),
{
    match barometer.get_value(phase, reply) {
        Step::Perform { request, next } => Step::Perform {
            request,
            next: PollPhase::Pressure { tmp, hum, co2, phase: next },
        },
        Step::Finished(Ok((_temperature, pressure))) => Step::Finished(
            (true, tmp, hum, co2, pressure.to_thousandths()),
        ),
        Step::Finished(Err(_)) => Step::Finished((false, tmp, hum, co2, 0)),
    }
}

fn read_gas(
    sensor: &SCD30,
    barometer: &BM1383AGLV,
    is_barometer_available: bool,
    phase: QueryPhase,
    reply: &Reply,
) -> (step: Step<PollPhase, SensorValues>)
    ensures
        step@ == gas_step(
            sensor.address(),
            barometer.enabled(),
            is_barometer_available,
            phase,
            reply@,
        ),
{
    match sensor.get_value(phase, reply) {
        Step::Perform { request, next } => Step::Perform {
            request,
            next: PollPhase::Measurement(next),
        },
        Step::Finished(Ok((get_co2, get_tmp, get_hum))) => {
            let co2 = get_co2.to_thousandths();
            let tmp = get_tmp.to_thousandths();
            let hum = get_hum.to_thousandths();
            if co2 < CO2_FLOOR {
                Step::Finished((false, 0, 0, 0, 0))
            } else if is_barometer_available {
                read_pressure(barometer, tmp, hum, co2, ReadPhase::Start, reply)
            } else {
                Step::Finished((true, tmp, hum, co2, 0))
            }
        },
        Step::Finished(Err(_)) => Step::Finished((false, 0, 0, 0, 0)),
    }
}

/// One step of a sensing cycle over both sensors.
pub fn get_sensor_value(
    sensor: &SCD30,
    barometer: &BM1383AGLV,
    is_barometer_available: bool,
    phase: PollPhase,
    reply: &Reply,
) -> (step: Step<PollPhase, SensorValues>)
    ensures
        step@ == poll_step(
            sensor.address(),
            barometer.enabled(),
            is_barometer_available,
            phase,
            reply@,
        ),
{
    match phase {
        PollPhase::Availability(query) => match sensor.is_available(query, reply) {
            Step::Perform { request, next } => Step::Perform {
                request,
                next: PollPhase::Availability(next),
            },
            Step::Finished(Ok(true)) => read_gas(
                sensor,
                barometer,
                is_barometer_available,
                QueryPhase::Start,
                reply,
            ),
            Step::Finished(_) => Step::Finished((false, 0, 0, 0, 0)),
        },
        PollPhase::Measurement(query) => read_gas(
            sensor,
            barometer,
            is_barometer_available,
            query,
            reply,
        ),
        PollPhase::Pressure { tmp, hum, co2, phase } => read_pressure(
            barometer,
            tmp,
            hum,
            co2,
            phase,
            reply,
        ),
    }
}

/// Decides what the buttons lead to: the state of the backlight, and
/// whether to show the next quantity.
pub fn handle_buttons(is_lcd_on: bool, right: bool, center: bool, left: bool, press: bool) -> (next: (
    bool,
    bool,
))
    ensures
        next == buttons_step(is_lcd_on, right, center, left, press),
{
    if is_lcd_on {
        (!right, press)
    } else {
        (right || center || left || press, false)
    }
}

/// Counts one more second.
pub fn tick(second: u16) -> (next: u16)
    ensures
        next == next_second(second),
        next < SECONDS_PER_ROUND,
{
    ((second as u32 + 1) % (SECONDS_PER_ROUND as u32)) as u16
}

/// Tells whether a sensing cycle is due.
pub fn is_sensing_due(second: u16, updated_second: u16) -> (due: bool)
    ensures
        due == sensing_due(second, updated_second),
{
    second % SENSING_INTERVAL == 0 && updated_second != second
}

/// A step that does not start from the barometer ends with usable samples
/// only where the CO2 sample is at the floor or above, and with a pressure
/// other than zero only where the barometer was asked for.
pub proof fn lemma_usable_samples(
    address: u8,
    enabled: bool,
    is_barometer_available: bool,
    phase: PollPhase,
    reply: ReplyView,
    values: SensorValues,
)
    requires
        poll_step(address, enabled, is_barometer_available, phase, reply) == poll_finished(values),
        values.0,
        !(phase is Pressure),
    ensures
        values.3 >= CO2_FLOOR,
        !is_barometer_available ==> values.4 == 0,
{
}

/// Within a round, the count of seconds is back where it was after a full
/// round.
pub proof fn lemma_full_round(second: u16)
    requires
        second < SECONDS_PER_ROUND,
    ensures
        seconds_later(second, SECONDS_PER_ROUND as nat) == second,
{
    lemma_seconds_later(second, SECONDS_PER_ROUND as nat);
}

proof fn lemma_seconds_later(second: u16, count: nat)
    requires
        second < SECONDS_PER_ROUND,
        count <= SECONDS_PER_ROUND,
    ensures
        seconds_later(second, count) == (second + count) % (SECONDS_PER_ROUND as int),
    decreases count,
{
    if count > 0 {
        lemma_seconds_later(second, (count - 1) as nat);
    }
}

} // verus!
