//! Driver for the barometer: bring-up sequence and decoding of the
//! pressure and temperature registers.

use crate::bus::{data_of, Reply, ReplyView, Request, RequestView, Step, StepView};
use crate::reading::{fixed_point_reading, Reading};
use vstd::arithmetic::power2::{lemma2_to64, pow2};
use vstd::prelude::*;

verus! {

/// Bus address of the barometer.
pub const ADDRESS: u8 = 0x5D;

/// Register that identifies the device.
pub const REG_ID: u8 = 0x10;

/// The identity this driver accepts.
pub const ID_VALUE: u8 = 0x32;

/// Power-down register.
pub const REG_POWER_DOWN: u8 = 0x12;

/// Reset register.
pub const REG_RESET: u8 = 0x13;

/// Mode-control register.
pub const REG_MODE_CONTROL: u8 = 0x14;

/// Written to the power-down register to wake the device.
pub const POWER_UP: u8 = 0x01;

/// Written to the reset register to let the measurement block run.
pub const RESET_RELEASE: u8 = 0x01;

/// Written to the mode-control register: the mode the monitor measures in.
pub const MODE_CONTINUOUS: u8 = 0xCA;

/// First of the five registers that hold pressure and temperature.
pub const REG_PRESSURE: u8 = 0x1A;

/// Length of a measurement frame.
pub const FRAME_LENGTH: usize = 5;

/// Pause after power-up, in milliseconds.
pub const POWER_UP_DELAY: u16 = 2;

/// Pause until the first measurement is ready, in milliseconds.
pub const SETTLE_DELAY: u16 = 240;

/// Fraction bits of the pressure count: units of 1/2048 hPa.
pub const PRESSURE_FRACTION_BITS: u8 = 11;

/// Fraction bits of the temperature count: units of 1/32 degree Celsius.
pub const TEMPERATURE_FRACTION_BITS: u8 = 5;

/// What can go wrong with the barometer.
#[derive(Clone, Copy, Debug, PartialEq, Eq, Structural)]
pub enum ErrorBM1383AGLV {
    ReadFailure,
    WriteFailure,
    CanNotAccess,
    CanNotFind,
    CanNotWritePowDwn,
    CanNotWriteReset,
    CanNotWriteModeCtr,
    NotInitialized,
    NoData,
}

/// Where the bring-up sequence stands: the request whose reply is awaited.
#[derive(Clone, Copy, Debug, PartialEq, Eq, Structural)]
pub enum InitPhase {
    Start,
    Identity,
    PowerDown,
    PowerDownWait,
    Reset,
    ModeControl,
    Settle,
}

/// Where a measurement stands.
#[derive(Clone, Copy, Debug, PartialEq, Eq, Structural)]
pub enum ReadPhase {
    Start,
    Frame,
}

/// The request that writes `value` to `register`.
pub open spec fn register_write(register: u8, value: u8) -> RequestView {
    RequestView::Write { address: ADDRESS, bytes: seq![register, value] }
}

/// The request that reads `count` registers from `register` on.
pub open spec fn register_read(register: u8, count: usize) -> RequestView {
    RequestView::WriteRead { address: ADDRESS, bytes: seq![register], count }
}

/// The step of the bring-up sequence that asks for `request`.
pub open spec fn init_perform(request: RequestView, next: InitPhase) -> StepView<
    InitPhase,
    Result<(), ErrorBM1383AGLV>,
> {
    StepView::Perform { request, next }
}

/// The step that ends the bring-up sequence with `result`.
pub open spec fn init_finished(result: Result<(), ErrorBM1383AGLV>) -> StepView<
    InitPhase,
    Result<(), ErrorBM1383AGLV>,
> {
    StepView::Finished(result)
}

/// One step of the bring-up sequence: check the identity, power up, pause,
/// release the reset, select the mode, pause. A failure ends the sequence
/// with the error of the step that failed.
pub open spec fn init_step(phase: InitPhase, reply: ReplyView) -> StepView<
    InitPhase,
    Result<(), ErrorBM1383AGLV>,
> {
    match phase {
        InitPhase::Start => StepView::Perform {
            request: register_read(REG_ID, 1),
            next: InitPhase::Identity,
        },
        InitPhase::Identity => match data_of(reply, 1) {
            Some(bytes) => if bytes[0] == ID_VALUE {
                StepView::Perform {
                    request: register_write(REG_POWER_DOWN, POWER_UP),
                    next: InitPhase::PowerDown,
                }
            } else {
                StepView::Finished(Err(ErrorBM1383AGLV::CanNotFind))
            },
            None => StepView::Finished(Err(ErrorBM1383AGLV::CanNotAccess)),
        },
        InitPhase::PowerDown => if reply == ReplyView::Done {
            StepView::Perform {
                request: RequestView::Delay { millis: POWER_UP_DELAY },
                next: InitPhase::PowerDownWait,
            }
        } else {
            StepView::Finished(Err(ErrorBM1383AGLV::CanNotWritePowDwn))
        },
        InitPhase::PowerDownWait => StepView::Perform {
            request: register_write(REG_RESET, RESET_RELEASE),
            next: InitPhase::Reset,
        },
        InitPhase::Reset => if reply == ReplyView::Done {
            StepView::Perform {
                request: register_write(REG_MODE_CONTROL, MODE_CONTINUOUS),
                next: InitPhase::ModeControl,
            }
        } else {
            StepView::Finished(Err(ErrorBM1383AGLV::CanNotWriteReset))
        },
        InitPhase::ModeControl => if reply == ReplyView::Done {
            StepView::Perform {
                request: RequestView::Delay { millis: SETTLE_DELAY },
                next: InitPhase::Settle,
            }
        } else {
            StepView::Finished(Err(ErrorBM1383AGLV::CanNotWriteModeCtr))
        },
        InitPhase::Settle => StepView::Finished(Ok(())),
    }
}

/// The pressure count of a frame: its first three bytes as one number,
/// divided by four, in units of 1/2048 hPa.
pub open spec fn raw_pressure(frame: Seq<u8>) -> int {
    (frame[0] * 65536 + frame[1] * 256 + frame[2]) / 4
}

/// The temperature count of a frame: its last two bytes as one number, in
/// units of 1/32 degree.
pub open spec fn raw_temperature(frame: Seq<u8>) -> int {
    frame[3] * 256 + frame[4]
}

/// Whether every byte of a frame is zero.
pub open spec fn all_zero(frame: Seq<u8>) -> bool {
    forall|i: int| 0 <= i < frame.len() ==> frame[i] == 0
}

/// Temperature and pressure of a frame. A frame of zeros means that the
/// device has not measured yet.
pub open spec fn measurement_of(frame: Seq<u8>) -> Result<(Reading, Reading), ErrorBM1383AGLV> {
    if frame.len() != FRAME_LENGTH {
        Err(ErrorBM1383AGLV::ReadFailure)
    } else if all_zero(frame) {
        Err(ErrorBM1383AGLV::NoData)
    } else {
        Ok(
            (
                fixed_point_reading(raw_temperature(frame) as u32, TEMPERATURE_FRACTION_BITS),
                fixed_point_reading(raw_pressure(frame) as u32, PRESSURE_FRACTION_BITS),
            ),
        )
    }
}

/// One step of a measurement: ask for the frame, then decode it.
pub open spec fn value_step(enabled: bool, phase: ReadPhase, reply: ReplyView) -> StepView<
    ReadPhase,
    Result<(Reading, Reading), ErrorBM1383AGLV>,
> {
    if !enabled {
        StepView::Finished(Err(ErrorBM1383AGLV::NotInitialized))
    } else {
        match phase {
            ReadPhase::Start => StepView::Perform {
                request: register_read(REG_PRESSURE, FRAME_LENGTH),
                next: ReadPhase::Frame,
            },
            ReadPhase::Frame => match data_of(reply, FRAME_LENGTH as nat) {
                Some(frame) => StepView::Finished(measurement_of(frame)),
                None => StepView::Finished(Err(ErrorBM1383AGLV::ReadFailure)),
            },
        }
    }
}

/// The frame in which the device reports a pressure count with `fraction`
/// in the two bits below it, and a temperature count.
pub open spec fn frame_of(pressure: int, fraction: int, temperature: int) -> Seq<u8> {
    let p = pressure * 4 + fraction;
    seq![
        (p / 65536) as u8,
        ((p / 256) % 256) as u8,
        (p % 256) as u8,
        (temperature / 256) as u8,
        (temperature % 256) as u8,
    ]
}

/// The barometer. It measures only once it has been brought up, and it
/// stays up from then on. The phases of an operation are passed back in as
/// the steps hand them out.
pub struct BM1383AGLV {
    enable: bool,
}

fn write_single(memory_address: u8, data: u8) -> (request: Request)
    ensures
        request@ == register_write(memory_address, data),
{
    let mut bytes: Vec<u8> = Vec::new();
    bytes.push(memory_address);
    bytes.push(data);
    assert(bytes@ =~= seq![memory_address, data]);
    Request::Write { address: ADDRESS, bytes }
}

fn read_registers(memory_address: u8, count: usize) -> (request: Request)
    ensures
        request@ == register_read(memory_address, count),
{
    let mut bytes: Vec<u8> = Vec::new();
    bytes.push(memory_address);
    assert(bytes@ =~= seq![memory_address]);
    Request::WriteRead { address: ADDRESS, bytes, count }
}

/// Decodes a measurement frame into temperature and pressure.
pub fn decode_measurement(frame: &Vec<u8>) -> (measurement: Result<
    (Reading, Reading),
    ErrorBM1383AGLV,
>)
    ensures
        measurement == measurement_of(frame@),
{
    if frame.len() != FRAME_LENGTH {
        return Err(ErrorBM1383AGLV::ReadFailure);
    }
    if frame[0] == 0 && frame[1] == 0 && frame[2] == 0 && frame[3] == 0 && frame[4] == 0 {
        return Err(ErrorBM1383AGLV::NoData);
    }
    let rawpress: u32 = ((frame[0] as u32 * 256 * 256) + (frame[1] as u32 * 256) + frame[2] as u32)
        / 4;
    let rawtemp: u32 = (frame[3] as u32 * 256) + frame[4] as u32;
    Ok(
        (
            Reading::from_fixed_point(rawtemp, TEMPERATURE_FRACTION_BITS),
            Reading::from_fixed_point(rawpress, PRESSURE_FRACTION_BITS),
        ),
    )
}

impl BM1383AGLV {
    /// Whether the device has been brought up.
    pub closed spec fn enabled(&self) -> bool {
        self.enable
    }

    /// A barometer that has not been brought up.
    pub fn new() -> (barometer: BM1383AGLV)
        ensures
            !barometer.enabled(),
    {
        BM1383AGLV { enable: false }
    }

    /// Whether the device has been brought up.
    pub fn is_enabled(&self) -> (enabled: bool)
        ensures
            enabled == self.enabled(),
    {
        self.enable
    }

    /// One step of the bring-up sequence. The device counts as brought up
    /// once the last pause is over.
    pub fn init(&mut self, phase: InitPhase, reply: &Reply) -> (step: Step<
        InitPhase,
        Result<(), ErrorBM1383AGLV>,
    >)
        ensures
            step@ == init_step(phase, reply@),
            final(self).enabled() == (old(self).enabled() || phase == InitPhase::Settle),
    {
        match phase {
            InitPhase::Start => Step::Perform {
                request: read_registers(REG_ID, 1),
                next: InitPhase::Identity,
            },
            InitPhase::Identity => match reply.data(1) {
                Some(bytes) => {
                    if bytes[0] == ID_VALUE {
                        Step::Perform {
                            request: write_single(REG_POWER_DOWN, POWER_UP),
                            next: InitPhase::PowerDown,
                        }
                    } else {
                        Step::Finished(Err(ErrorBM1383AGLV::CanNotFind))
                    }
                },
                None => Step::Finished(Err(ErrorBM1383AGLV::CanNotAccess)),
            },
            InitPhase::PowerDown => {
                if reply.is_done() {
                    Step::Perform {
                        request: Request::Delay { millis: POWER_UP_DELAY },
                        next: InitPhase::PowerDownWait,
                    }
                } else {
                    Step::Finished(Err(ErrorBM1383AGLV::CanNotWritePowDwn))
                }
            },
            InitPhase::PowerDownWait => Step::Perform {
                request: write_single(REG_RESET, RESET_RELEASE),
                next: InitPhase::Reset,
            },
            InitPhase::Reset => {
                if reply.is_done() {
                    Step::Perform {
                        request: write_single(REG_MODE_CONTROL, MODE_CONTINUOUS),
                        next: InitPhase::ModeControl,
                    }
                } else {
                    Step::Finished(Err(ErrorBM1383AGLV::CanNotWriteReset))
                }
            },
            InitPhase::ModeControl => {
                if reply.is_done() {
                    Step::Perform {
                        request: Request::Delay { millis: SETTLE_DELAY },
                        next: InitPhase::Settle,
                    }
                } else {
                    Step::Finished(Err(ErrorBM1383AGLV::CanNotWriteModeCtr))
                }
            },
            InitPhase::Settle => {
                self.enable = true;
                Step::Finished(Ok(()))
            },
        }
    }

    /// One step of a measurement, which yields temperature and pressure.
    pub fn get_value(&self, phase: ReadPhase, reply: &Reply) -> (step: Step<
        ReadPhase,
        Result<(Reading, Reading), ErrorBM1383AGLV>,
    >)
        ensures
            step@ == value_step(self.enabled(), phase, reply@),
    {
        if !self.enable {
            return Step::Finished(Err(ErrorBM1383AGLV::NotInitialized));
        }
        match phase {
            ReadPhase::Start => Step::Perform {
                request: read_registers(REG_PRESSURE, FRAME_LENGTH),
                next: ReadPhase::Frame,
            },
            ReadPhase::Frame => match reply.data(FRAME_LENGTH) {
                Some(frame) => Step::Finished(decode_measurement(frame)),
                None => Step::Finished(Err(ErrorBM1383AGLV::ReadFailure)),
            },
        }
    }
}

/// On a bus that does as it is asked, with the right device answering, the
/// bring-up sequence is: read the identity, write power-up, pause, write
/// reset release, write the mode, pause; and then it ends well.
pub proof fn lemma_init_sequence()
    ensures
        init_step(InitPhase::Start, ReplyView::Done) == init_perform(
            register_read(REG_ID, 1),
            InitPhase::Identity,
        ),
        init_step(InitPhase::Identity, ReplyView::Data(seq![ID_VALUE])) == init_perform(
            register_write(REG_POWER_DOWN, POWER_UP),
            InitPhase::PowerDown,
        ),
        init_step(InitPhase::PowerDown, ReplyView::Done) == init_perform(
            RequestView::Delay { millis: POWER_UP_DELAY },
            InitPhase::PowerDownWait,
        ),
        init_step(InitPhase::PowerDownWait, ReplyView::Done) == init_perform(
            register_write(REG_RESET, RESET_RELEASE),
            InitPhase::Reset,
        ),
        init_step(InitPhase::Reset, ReplyView::Done) == init_perform(
            register_write(REG_MODE_CONTROL, MODE_CONTINUOUS),
            InitPhase::ModeControl,
        ),
        init_step(InitPhase::ModeControl, ReplyView::Done) == init_perform(
            RequestView::Delay { millis: SETTLE_DELAY },
            InitPhase::Settle,
        ),
        init_step(InitPhase::Settle, ReplyView::Done) == init_finished(Ok(())),
{
}

/// The sequence ends well in its last phase only, so a device is brought up
/// only after every step before went through.
pub proof fn lemma_init_ends_well_only_at_last(phase: InitPhase, reply: ReplyView)
    ensures
        init_step(phase, reply) == init_finished(Ok(())) <==> phase == InitPhase::Settle,
{
}

/// A frame that reports given counts decodes to exactly those counts,
/// unless it is the frame of zeros.
pub proof fn lemma_frame_round_trip(pressure: int, fraction: int, temperature: int)
    requires
        0 <= pressure < 0x40_0000,
        0 <= fraction < 4,
        0 <= temperature < 0x1_0000,
        pressure != 0 || fraction != 0 || temperature != 0,
    ensures
        measurement_of(frame_of(pressure, fraction, temperature)) == Ok::<
            (Reading, Reading),
            ErrorBM1383AGLV,
        >(
            (
                fixed_point_reading(temperature as u32, TEMPERATURE_FRACTION_BITS),
                fixed_point_reading(pressure as u32, PRESSURE_FRACTION_BITS),
            ),
        ),
{
    let frame = frame_of(pressure, fraction, temperature);
    let p = pressure * 4 + fraction;
    assert(frame[0] * 65536 + frame[1] * 256 + frame[2] == p);
    assert(raw_pressure(frame) == pressure);
    assert(raw_temperature(frame) == temperature);
    if all_zero(frame) {
        assert(frame[0] == 0 && frame[1] == 0 && frame[2] == 0 && frame[3] == 0 && frame[4] == 0);
    }
}

/// In thousandths, a decoded pressure is the count times 1000 / 2048 and a
/// decoded temperature the count times 1000 / 32, rounded down: nothing is
/// lost but what lies below a thousandth.
pub proof fn lemma_counts_in_thousandths(pressure: u32, temperature: u32)
    requires
        pressure < 0x40_0000,
        temperature < 0x1_0000,
    ensures
        fixed_point_reading(pressure, PRESSURE_FRACTION_BITS).thousandths() == (pressure * 1000)
            / 2048,
        fixed_point_reading(temperature, TEMPERATURE_FRACTION_BITS).thousandths() == (temperature
            * 1000) / 32,
{
    lemma2_to64();
    assert(pow2(11) == 2048);
    assert(pow2(5) == 32);
}

} // verus!
