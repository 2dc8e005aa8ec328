//! Driver for the CO2 sensor: command frames, the data-ready poll and the
//! decoding of a measurement frame.
//!
//! The driver keeps nothing but the bus address. Every operation is a
//! sequence of one to three requests, and the caller passes the phase back
//! in as it was handed out.

use crate::bus::{data_of, Reply, ReplyView, Request, RequestView, Step, StepView};
use crate::checksum::{calculate_crc, crc, high_byte, low_byte};
use crate::reading::{binary32_reading, Reading};
use vstd::prelude::*;

verus! {

/// Bus address of the sensor.
pub const ADDRESS: u8 = 0x61;

/// Sets the time between two measurements; argument in seconds.
pub const CMD_SET_MEASUREMENT_INTERVAL: u16 = 0x4600;

/// Starts continuous measurement; argument zero.
pub const CMD_CONTINUOUS_MEASUREMENT: u16 = 0x0010;

/// Switches the automatic calibration; argument one for on, zero for off.
pub const CMD_AUTO_CALIBRATION: u16 = 0x5306;

/// Asks whether a measurement waits to be read.
pub const CMD_DATA_READY: u16 = 0x0202;

/// Asks for a measurement frame.
pub const CMD_READ_MEASUREMENT: u16 = 0x0300;

/// Stops continuous measurement.
pub const CMD_STOP_MEASUREMENT: u16 = 0x0104;

/// Length of the answer to the data-ready poll.
pub const STATUS_LENGTH: usize = 2;

/// Length of a measurement frame: three groups of two data bytes, a
/// checksum, two data bytes, a checksum.
pub const FRAME_LENGTH: usize = 18;

/// Where a single command stands.
#[derive(Clone, Copy, Debug, PartialEq, Eq, Structural)]
pub enum CommandPhase {
    Start,
    Sent,
}

/// Where the start-up of the sensor stands.
#[derive(Clone, Copy, Debug, PartialEq, Eq, Structural)]
pub enum InitPhase {
    Start,
    Interval,
    Measurement,
}

/// Where a command with an answer stands.
#[derive(Clone, Copy, Debug, PartialEq, Eq, Structural)]
pub enum QueryPhase {
    Start,
    Asked,
    Answer,
}

/// A command with its argument and the checksum of the argument.
pub open spec fn command_frame(command: u16, arguments: u16) -> Seq<u8> {
    seq![
        high_byte(command),
        low_byte(command),
        high_byte(arguments),
        low_byte(arguments),
        crc(arguments),
    ]
}

/// A command without an argument.
pub open spec fn bare_command(command: u16) -> Seq<u8> {
    seq![high_byte(command), low_byte(command)]
}

/// What a write came to.
pub open spec fn written(reply: ReplyView) -> Result<(), ()> {
    if reply == ReplyView::Done {
        Ok(())
    } else {
        Err(())
    }
}

/// One step of a single command: send the bytes, then report how the write
/// went.
pub open spec fn command_step(address: u8, bytes: Seq<u8>, phase: CommandPhase, reply: ReplyView)
    -> StepView<CommandPhase, Result<(), ()>> {
    match phase {
        CommandPhase::Start => StepView::Perform {
            request: RequestView::Write { address, bytes },
            next: CommandPhase::Sent,
        },
        CommandPhase::Sent => StepView::Finished(written(reply)),
    }
}

/// One step of the start-up: set the measurement interval, then start
/// continuous measurement. The first write that fails ends it.
pub open spec fn init_step(address: u8, interval: u16, phase: InitPhase, reply: ReplyView)
    -> StepView<InitPhase, Result<(), ()>> {
    match phase {
        InitPhase::Start => StepView::Perform {
            request: RequestView::Write {
                address,
                bytes: command_frame(CMD_SET_MEASUREMENT_INTERVAL, interval),
            },
            next: InitPhase::Interval,
        },
        InitPhase::Interval => if reply == ReplyView::Done {
            StepView::Perform {
                request: RequestView::Write {
                    address,
                    bytes: command_frame(CMD_CONTINUOUS_MEASUREMENT, 0),
                },
                next: InitPhase::Measurement,
            }
        } else {
            StepView::Finished(Err(()))
        },
        InitPhase::Measurement => StepView::Finished(written(reply)),
    }
}

/// Whether the answer to the data-ready poll says that a measurement
/// waits: either byte is not zero.
pub open spec fn data_ready(status: Seq<u8>) -> bool {
    status[0] != 0 || status[1] != 0
}

/// One step of the data-ready poll: send the command, read two bytes,
/// judge them.
pub open spec fn availability_step(address: u8, phase: QueryPhase, reply: ReplyView) -> StepView<
    QueryPhase,
    Result<bool, ()>,
> {
    match phase {
        QueryPhase::Start => StepView::Perform {
            request: RequestView::Write { address, bytes: bare_command(CMD_DATA_READY) },
            next: QueryPhase::Asked,
        },
        QueryPhase::Asked => if reply == ReplyView::Done {
            StepView::Perform {
                request: RequestView::Read { address, count: STATUS_LENGTH },
                next: QueryPhase::Answer,
            }
        } else {
            StepView::Finished(Err(()))
        },
        QueryPhase::Answer => match data_of(reply, STATUS_LENGTH as nat) {
            Some(status) => StepView::Finished(Ok(data_ready(status))),
            None => StepView::Finished(Err(())),
        },
    }
}

/// The 32-bit word of the group that starts at `offset`: its four data
/// bytes, most significant first. The two checksum bytes of the group are
/// passed over.
pub open spec fn frame_word(frame: Seq<u8>, offset: int) -> u32 {
    (frame[offset] * 0x100_0000 + frame[offset + 1] * 0x1_0000 + frame[offset + 3] * 0x100
        + frame[offset + 4]) as u32
}

/// CO2 (ppm), temperature (degrees Celsius) and relative humidity (percent)
/// of a measurement frame.
pub open spec fn frame_readings(frame: Seq<u8>) -> (Reading, Reading, Reading) {
    (
        binary32_reading(frame_word(frame, 0)),
        binary32_reading(frame_word(frame, 6)),
        binary32_reading(frame_word(frame, 12)),
    )
}

/// The readings of a frame, where it has the length of one.
pub open spec fn decoded_frame(frame: Seq<u8>) -> Option<(Reading, Reading, Reading)> {
    if frame.len() == FRAME_LENGTH {
        Some(frame_readings(frame))
    } else {
        None
    }
}

/// One step of a measurement: send the command, read the frame, decode it.
pub open spec fn measurement_step(address: u8, phase: QueryPhase, reply: ReplyView) -> StepView<
    QueryPhase,
    Result<(Reading, Reading, Reading), ()>,
> {
    match phase {
        QueryPhase::Start => StepView::Perform {
            request: RequestView::Write { address, bytes: bare_command(CMD_READ_MEASUREMENT) },
            next: QueryPhase::Asked,
        },
        QueryPhase::Asked => if reply == ReplyView::Done {
            StepView::Perform {
                request: RequestView::Read { address, count: FRAME_LENGTH },
                next: QueryPhase::Answer,
            }
        } else {
            StepView::Finished(Err(()))
        },
        QueryPhase::Answer => match data_of(reply, FRAME_LENGTH as nat) {
            Some(frame) => StepView::Finished(Ok(frame_readings(frame))),
            None => StepView::Finished(Err(())),
        },
    }
}

/// The argument of the calibration command.
pub open spec fn calibration_argument(enable: bool) -> u16 {
    if enable {
        1
    } else {
        0
    }
}

fn split(word: u16) -> (bytes: (u8, u8))
    ensures
        bytes.0 == high_byte(word),
        bytes.1 == low_byte(word),
{
    assert(word >> 8u16 == word / 256) by (bit_vector);
    assert(word & 0x00ffu16 == word % 256) by (bit_vector);
    ((word >> 8u16) as u8, (word & 0x00ffu16) as u8)
}

/// Builds the five bytes of a command with an argument.
pub fn write_command(command: u16, arguments: u16) -> (bytes: Vec<u8>)
    ensures
        bytes@ == command_frame(command, arguments),
{
    let checksum = calculate_crc(arguments);
    let (command_high, command_low) = split(command);
    let (argument_high, argument_low) = split(arguments);
    let mut bytes: Vec<u8> = Vec::new();
    bytes.push(command_high);
    bytes.push(command_low);
    bytes.push(argument_high);
    bytes.push(argument_low);
    bytes.push(checksum);
    assert(bytes@ =~= command_frame(command, arguments));
    bytes
}

fn command_bytes(command: u16) -> (bytes: Vec<u8>)
    ensures
        bytes@ == bare_command(command),
{
    let (high, low) = split(command);
    let mut bytes: Vec<u8> = Vec::new();
    bytes.push(high);
    bytes.push(low);
    assert(bytes@ =~= bare_command(command));
    bytes
}

fn word_at(frame: &Vec<u8>, offset: usize) -> (word: u32)
    requires
        offset + 4 < frame.len(),
    ensures
        word == frame_word(frame@, offset as int),
{
    let b0 = frame[offset] as u32;
    let b1 = frame[offset + 1] as u32;
    let b2 = frame[offset + 3] as u32;
    let b3 = frame[offset + 4] as u32;
    assert((b0 << 24) | (b1 << 16) | (b2 << 8) | b3 == b0 * 0x100_0000 + b1 * 0x1_0000 + b2 * 0x100
        + b3) by (bit_vector)
        requires
            b0 < 256,
            b1 < 256,
            b2 < 256,
            b3 < 256,
    ;
    (b0 << 24) | (b1 << 16) | (b2 << 8) | b3
}

/// Decodes a measurement frame into CO2, temperature and humidity; `None`
/// for anything but eighteen bytes. The checksum bytes of the frame are not
/// looked at.
pub fn decode_frame(frame: &Vec<u8>) -> (readings: Option<(Reading, Reading, Reading)>)
    ensures
        readings == decoded_frame(frame@),
{
    if frame.len() != FRAME_LENGTH {
        return None;
    }
    Some(
        (
            Reading::from_binary32(word_at(frame, 0)),
            Reading::from_binary32(word_at(frame, 6)),
            Reading::from_binary32(word_at(frame, 12)),
        ),
    )
}

fn write_result(reply: &Reply) -> (result: Result<(), ()>)
    ensures
        result == written(reply@),
{
    if reply.is_done() {
        Ok(())
    } else {
        Err(())
    }
}

/// The CO2 sensor.
pub struct SCD30 {
    scd30_address: u8,
}

impl SCD30 {
    /// The bus address this driver talks to.
    pub closed spec fn address(&self) -> u8 {
        self.scd30_address
    }

    /// The sensor at its fixed address.
    pub fn new() -> (sensor: SCD30)
        ensures
            sensor.address() == ADDRESS,
    {
        SCD30 { scd30_address: ADDRESS }
    }

    fn command(&self, bytes: Vec<u8>, phase: CommandPhase, reply: &Reply) -> (step: Step<
        CommandPhase,
        Result<(), ()>,
    >)
        ensures
            step@ == command_step(self.address(), bytes@, phase, reply@),
    {
        match phase {
            CommandPhase::Start => Step::Perform {
                request: Request::Write { address: self.scd30_address, bytes },
                next: CommandPhase::Sent,
            },
            CommandPhase::Sent => Step::Finished(write_result(reply)),
        }
    }

    /// One step of the start-up of the sensor.
    pub fn init(&self, interval: u16, phase: InitPhase, reply: &Reply) -> (step: Step<
        InitPhase,
        Result<(), ()>,
    >)
        ensures
            step@ == init_step(self.address(), interval, phase, reply@),
    {
        match phase {
            InitPhase::Start => Step::Perform {
                request: Request::Write {
                    address: self.scd30_address,
                    bytes: write_command(CMD_SET_MEASUREMENT_INTERVAL, interval),
                },
                next: InitPhase::Interval,
            },
            InitPhase::Interval => {
                if reply.is_done() {
                    Step::Perform {
                        request: Request::Write {
                            address: self.scd30_address,
                            bytes: write_command(CMD_CONTINUOUS_MEASUREMENT, 0x0000),
                        },
                        next: InitPhase::Measurement,
                    }
                } else {
                    Step::Finished(Err(()))
                }
            },
            InitPhase::Measurement => Step::Finished(write_result(reply)),
        }
    }

    /// One step of setting the time between two measurements, in seconds.
    pub fn set_measurement_interval(&self, interval: u16, phase: CommandPhase, reply: &Reply) -> (step:
        Step<CommandPhase, Result<(), ()>>)
        ensures
            step@ == command_step(
                self.address(),
                command_frame(CMD_SET_MEASUREMENT_INTERVAL, interval),
                phase,
                reply@,
            ),
    {
        self.command(write_command(CMD_SET_MEASUREMENT_INTERVAL, interval), phase, reply)
    }

    /// One step of starting continuous measurement.
    pub fn start_periodic_measurment(&self, phase: CommandPhase, reply: &Reply) -> (step: Step<
        CommandPhase,
        Result<(), ()>,
    >)
        ensures
            step@ == command_step(
                self.address(),
                command_frame(CMD_CONTINUOUS_MEASUREMENT, 0),
                phase,
                reply@,
            ),
    {
        self.command(write_command(CMD_CONTINUOUS_MEASUREMENT, 0x0000), phase, reply)
    }

    /// One step of asking whether a measurement waits to be read.
    pub fn is_available(&self, phase: QueryPhase, reply: &Reply) -> (step: Step<
        QueryPhase,
        Result<bool, ()>,
    >)
        ensures
            step@ == availability_step(self.address(), phase, reply@),
    {
        match phase {
            QueryPhase::Start => Step::Perform {
                request: Request::Write {
                    address: self.scd30_address,
                    bytes: command_bytes(CMD_DATA_READY),
                },
                next: QueryPhase::Asked,
            },
            QueryPhase::Asked => {
                if reply.is_done() {
                    Step::Perform {
                        request: Request::Read { address: self.scd30_address, count: STATUS_LENGTH },
                        next: QueryPhase::Answer,
                    }
                } else {
                    Step::Finished(Err(()))
                }
            },
            QueryPhase::Answer => match reply.data(STATUS_LENGTH) {
                Some(status) => Step::Finished(Ok(status[0] != 0 || status[1] != 0)),
                None => Step::Finished(Err(())),
            },
        }
    }

    /// One step of switching the automatic calibration on or off.
    pub fn set_auto_calibration(&self, enable: bool, phase: CommandPhase, reply: &Reply) -> (step:
        Step<CommandPhase, Result<(), ()>>)
        ensures
            step@ == command_step(
                self.address(),
                command_frame(CMD_AUTO_CALIBRATION, calibration_argument(enable)),
                phase,
                reply@,
            ),
    {
        if enable {
            self.command(write_command(CMD_AUTO_CALIBRATION, 1), phase, reply)
        } else {
            self.command(write_command(CMD_AUTO_CALIBRATION, 0), phase, reply)
        }
    }

    /// One step of a measurement, which yields CO2, temperature and
    /// humidity.
    pub fn get_value(&self, phase: QueryPhase, reply: &Reply) -> (step: Step<
        QueryPhase,
        Result<(Reading, Reading, Reading), ()>,
    >)
        ensures
            step@ == measurement_step(self.address(), phase, reply@),
    {
        match phase {
            QueryPhase::Start => Step::Perform {
                request: Request::Write {
                    address: self.scd30_address,
                    bytes: command_bytes(CMD_READ_MEASUREMENT),
                },
                next: QueryPhase::Asked,
            },
            QueryPhase::Asked => {
                if reply.is_done() {
                    Step::Perform {
                        request: Request::Read { address: self.scd30_address, count: FRAME_LENGTH },
                        next: QueryPhase::Answer,
                    }
                } else {
                    Step::Finished(Err(()))
                }
            },
            QueryPhase::Answer => match reply.data(FRAME_LENGTH) {
                Some(frame) => match decode_frame(frame) {
                    Some(readings) => Step::Finished(Ok(readings)),
                    None => Step::Finished(Err(())),
                },
                None => Step::Finished(Err(())),
            },
        }
    }

    /// One step of stopping continuous measurement.
    pub fn stop_measurement(&self, phase: CommandPhase, reply: &Reply) -> (step: Step<
        CommandPhase,
        Result<(), ()>,
    >)
        ensures
            step@ == command_step(
                self.address(),
                bare_command(CMD_STOP_MEASUREMENT),
                phase,
                reply@,
            ),
    {
        self.command(command_bytes(CMD_STOP_MEASUREMENT), phase, reply)
    }
}

} // verus!
