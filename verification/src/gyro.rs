//! L3GD20 three-axis angular-rate sensor on the SPI bus.
//!
//! The driver is a state machine. An operation is started with one of the
//! methods of [`L3GD20`], which answers with the first transfer to perform;
//! each reply is handed to [`L3GD20::resume`] until the operation is done or
//! has failed. What the machine does is laid down by [`GyroState`], on which
//! the laws at the end of this module are proved: they hold of every reply,
//! one transfer at a time. What whole operations do to a sensor that works
//! is proved in [`device`].

use crate::bus::{spi_burst, spi_read, spi_write};
use crate::bus::{spi_read_burst, spi_read_register, spi_write_register};
use crate::bus::{BusFault, DriverError, Reply, Request, Step};
use crate::bus::{data, done, lemma_spi_command, reply_view};
use crate::word::{i16_from_le, i8_from_byte, replace_field};
use crate::word::{lemma_field_replaced, signed8, with_field, word};
use vstd::prelude::*;

pub mod device;
pub mod regs;

verus! {

/// What the identity register of an L3GD20 holds.
pub const IDENTITY_L3GD20: u8 = 0xD4;

/// What the identity register of an L3GD20H holds.
pub const IDENTITY_L3GD20H: u8 = 0xD7;

/// The range-select bits of the fourth control register.
pub const FULL_SCALE_FIELD: u8 = 0x30;

/// The rate and bandwidth bits of the first control register.
pub const DATA_RATE_FIELD: u8 = 0xF0;

/// The bit of the status register that tells of new data on all three axes.
pub const STATUS_ZYXDA: u8 = 0x08;

/// Time to let pass before the device is first addressed, in milliseconds.
pub const STARTUP_DELAY_MS: u32 = 10;

/// Time that the device takes to settle once it is switched on, in
/// milliseconds.
pub const SETTLE_DELAY_MS: u32 = 250;

/// The number of bytes that hold one sample: three axes of two bytes each.
pub const SAMPLE_LEN: usize = 6;

/// Full-scale selection.
#[derive(Debug, Clone, Copy, PartialEq, Eq, Structural)]
pub enum FullScale {
    /// ±250 degrees per second
    Dps250,
    /// ±500 degrees per second
    Dps500,
    /// ±2000 degrees per second
    Dps2000,
}

impl FullScale {
    /// The range-select bits that stand for this setting in the fourth
    /// control register.
    pub open spec fn spec_bits(self) -> u8 {
        match self {
            FullScale::Dps250 => 0x00,
            FullScale::Dps500 => 0x10,
            FullScale::Dps2000 => 0x20,
        }
    }

    /// The code of this setting, at its place in its control register.
    #[verifier::when_used_as_spec(spec_bits)]
    pub fn bits(self) -> (bits: u8)
        ensures
            bits == self.spec_bits(),
    {
        match self {
            FullScale::Dps250 => 0x00,
            FullScale::Dps500 => 0x10,
            FullScale::Dps2000 => 0x20,
        }
    }

    /// What one digit of a raw sample is worth at this setting, in
    /// micro-degrees per second: 8.75, 17.5 and 70 mdps per digit.
    pub open spec fn spec_sensitivity(self) -> u32 {
        match self {
            FullScale::Dps250 => 8_750,
            FullScale::Dps500 => 17_500,
            FullScale::Dps2000 => 70_000,
        }
    }

    /// Micro-degrees per second per digit at this setting.
    #[verifier::when_used_as_spec(spec_sensitivity)]
    pub fn sensitivity(self) -> (micro_dps: u32)
        ensures
            micro_dps == self.spec_sensitivity(),
    {
        match self {
            FullScale::Dps250 => 8_750,
            FullScale::Dps500 => 17_500,
            FullScale::Dps2000 => 70_000,
        }
    }
}

/// Output data rate and bandwidth selection.
#[derive(Debug, Clone, Copy, PartialEq, Eq, Structural)]
pub enum DataRate {
    /// 95 Hz, 12.5 Hz cutoff
    Hz95,
    /// 95 Hz, 25 Hz cutoff
    Hz95_25,
    /// 190 Hz, 12.5 Hz cutoff
    Hz190,
    /// 190 Hz, 25 Hz cutoff
    Hz190_25,
    /// 190 Hz, 50 Hz cutoff
    Hz190_50,
    /// 190 Hz, 70 Hz cutoff
    Hz190_70,
    /// 380 Hz, 20 Hz cutoff
    Hz380,
    /// 380 Hz, 25 Hz cutoff
    Hz380_25,
    /// 380 Hz, 50 Hz cutoff
    Hz380_50,
    /// 380 Hz, 100 Hz cutoff
    Hz380_100,
    /// 760 Hz, 30 Hz cutoff
    Hz760,
    /// 760 Hz, 35 Hz cutoff
    Hz760_35,
    /// 760 Hz, 50 Hz cutoff
    Hz760_50,
    /// 760 Hz, 100 Hz cutoff
    Hz760_100,
}

impl DataRate {
    /// The rate and bandwidth bits that stand for this setting in the first
    /// control register.
    pub open spec fn spec_bits(self) -> u8 {
        match self {
            DataRate::Hz95 => 0x00,
            DataRate::Hz95_25 => 0x10,
            DataRate::Hz190 => 0x40,
            DataRate::Hz190_25 => 0x50,
            DataRate::Hz190_50 => 0x60,
            DataRate::Hz190_70 => 0x70,
            DataRate::Hz380 => 0x80,
            DataRate::Hz380_25 => 0x90,
            DataRate::Hz380_50 => 0xA0,
            DataRate::Hz380_100 => 0xB0,
            DataRate::Hz760 => 0xC0,
            DataRate::Hz760_35 => 0xD0,
            DataRate::Hz760_50 => 0xE0,
            DataRate::Hz760_100 => 0xF0,
        }
    }

    /// The code of this setting, at its place in its control register.
    #[verifier::when_used_as_spec(spec_bits)]
    pub fn bits(self) -> (bits: u8)
        ensures
            bits == self.spec_bits(),
    {
        match self {
            DataRate::Hz95 => 0x00,
            DataRate::Hz95_25 => 0x10,
            DataRate::Hz190 => 0x40,
            DataRate::Hz190_25 => 0x50,
            DataRate::Hz190_50 => 0x60,
            DataRate::Hz190_70 => 0x70,
            DataRate::Hz380 => 0x80,
            DataRate::Hz380_25 => 0x90,
            DataRate::Hz380_50 => 0xA0,
            DataRate::Hz380_100 => 0xB0,
            DataRate::Hz760 => 0xC0,
            DataRate::Hz760_35 => 0xD0,
            DataRate::Hz760_50 => 0xE0,
            DataRate::Hz760_100 => 0xF0,
        }
    }
}

/// Whether the device measures.
#[derive(Debug, Clone, Copy, PartialEq, Eq, Structural)]
pub enum Power {
    /// Powered down: the state of the device before it is initialised.
    Down,
    /// Switched on, all three axes enabled.
    Normal,
}

/// Angular rate about the three axes, in micro-degrees per second.
#[derive(Debug, Default, Clone, Copy, PartialEq, Eq, Structural)]
pub struct AngularRate {
    pub x: i64,
    pub y: i64,
    pub z: i64,
}

impl AngularRate {
    /// The angular rate that six output bytes stand for at a full-scale
    /// setting. The bytes are those of the registers from X-low on: each
    /// axis is a signed word, low byte first, X then Y then Z, and counts
    /// digits of the setting's sensitivity.
    pub open spec fn decode(data: Seq<u8>, scale: FullScale) -> AngularRate {
        AngularRate {
            x: (word(data[0], data[1]) * scale.sensitivity()) as i64,
            y: (word(data[2], data[3]) * scale.sensitivity()) as i64,
            z: (word(data[4], data[5]) * scale.sensitivity()) as i64,
        }
    }

    /// Converts the six output bytes of one sample.
    pub fn from_registers(data: &[u8; 6], scale: FullScale) -> (rate: AngularRate)
        ensures
            rate == AngularRate::decode(data@, scale),
            rate.x == word(data@[0], data@[1]) * scale.sensitivity(),
            rate.y == word(data@[2], data@[3]) * scale.sensitivity(),
            rate.z == word(data@[4], data@[5]) * scale.sensitivity(),
    {
        AngularRate {
            x: scaled(i16_from_le(data[0], data[1]), scale),
            y: scaled(i16_from_le(data[2], data[3]), scale),
            z: scaled(i16_from_le(data[4], data[5]), scale),
        }
    }
}

/// A raw sample in micro-degrees per second.
fn scaled(raw: i16, scale: FullScale) -> (micro_dps: i64)
    ensures
        micro_dps == raw * scale.sensitivity(),
{
    let sensitivity: i64 = scale.sensitivity() as i64;
    assert(-32768 * 70_000 <= raw * sensitivity <= 32767 * 70_000) by (nonlinear_arith)
        requires
            -32768 <= raw <= 32767,
            0 <= sensitivity <= 70_000,
    ;
    (raw as i64) * sensitivity
}

/// Whether an identity byte is one that the device is documented to report.
/// Another value is worth a warning and nothing more: the device may work
/// all the same.
pub open spec fn identity_known(identity: u8) -> bool {
    identity == IDENTITY_L3GD20 || identity == IDENTITY_L3GD20H
}

/// Tells whether an identity byte is one of the two documented ones.
pub fn identity_recognized(identity: u8) -> (known: bool)
    ensures
        known == identity_known(identity),
{
    identity == IDENTITY_L3GD20 || identity == IDENTITY_L3GD20H
}

/// The five control registers, in the order in which they are written when
/// the device is initialised.
#[derive(Debug, Clone, Copy, PartialEq, Eq, Structural)]
pub enum ControlRegister {
    One,
    Two,
    Three,
    Four,
    Five,
}

impl ControlRegister {
    /// Where the register lives.
    pub open spec fn spec_address(self) -> u8 {
        match self {
            ControlRegister::One => regs::CTRL_REG1,
            ControlRegister::Two => regs::CTRL_REG2,
            ControlRegister::Three => regs::CTRL_REG3,
            ControlRegister::Four => regs::CTRL_REG4,
            ControlRegister::Five => regs::CTRL_REG5,
        }
    }

    /// The address of the register.
    #[verifier::when_used_as_spec(spec_address)]
    pub fn address(self) -> (address: u8)
        ensures
            address == self.spec_address(),
    {
        match self {
            ControlRegister::One => regs::CTRL_REG1,
            ControlRegister::Two => regs::CTRL_REG2,
            ControlRegister::Three => regs::CTRL_REG3,
            ControlRegister::Four => regs::CTRL_REG4,
            ControlRegister::Five => regs::CTRL_REG5,
        }
    }

    /// What the register is set to when the device is initialised. The
    /// first one switches the device on with all three axes enabled; the
    /// others are cleared, which leaves range and rate at their defaults,
    /// the filters and interrupts off and the output updated continuously.
    pub open spec fn spec_startup_value(self) -> u8 {
        match self {
            ControlRegister::One => 0x0F,
            _ => 0x00,
        }
    }

    /// What is written to the register at start-up.
    #[verifier::when_used_as_spec(spec_startup_value)]
    pub fn startup_value(self) -> (value: u8)
        ensures
            value == self.spec_startup_value(),
    {
        match self {
            ControlRegister::One => 0x0F,
            _ => 0x00,
        }
    }
}

/// An operation of the driver.
#[derive(Debug, Clone, Copy, PartialEq, Eq, Structural)]
pub enum GyroCommand {
    /// Identify the device, switch it on and let it settle.
    Init,
    /// Select the full-scale range.
    SetScale(FullScale),
    /// Select the output data rate and bandwidth.
    SetDataRate(DataRate),
    /// Ask whether a new sample is waiting.
    DataReady,
    /// Read the sample that is waiting.
    ReadAngularRate,
    /// Read the temperature.
    ReadTemperature,
}

/// What a finished operation hands back.
#[derive(Debug, Clone, Copy, PartialEq, Eq, Structural)]
pub enum GyroOutcome {
    /// The device is switched on. `identity` is what its identity register
    /// held, and `recognized` says whether that is a documented value.
    Initialized { identity: u8, recognized: bool },
    /// The setting is written and in force.
    Configured,
    /// Whether a new sample is waiting on all three axes.
    DataReady(bool),
    /// The sample, converted at the full scale in force.
    AngularRate(AngularRate),
    /// The temperature register, one digit per degree Celsius, no offset
    /// applied.
    Temperature(i8),
}

/// Where the driver stands in the operation in flight.
#[derive(Debug, Clone, Copy, PartialEq, Eq, Structural)]
pub enum GyroPhase {
    /// No operation is in flight.
    Idle,
    /// Waiting before the device is first addressed.
    Waking,
    /// Reading the identity register.
    Identifying,
    /// Writing a control register at start-up.
    Configuring { register: ControlRegister, identity: u8 },
    /// Waiting for the device to settle.
    Settling { identity: u8 },
    /// Reading the fourth control register, to change its range bits.
    ScaleRead { scale: FullScale },
    /// Writing the fourth control register back; `current` is what was read.
    ScaleWrite { scale: FullScale, current: u8 },
    /// Reading the first control register, to change its rate bits.
    RateRead { rate: DataRate },
    /// Writing the first control register back; `current` is what was read.
    RateWrite { rate: DataRate, current: u8 },
    /// Reading the status register.
    Polling,
    /// Reading the six output registers.
    Sampling,
    /// Reading the temperature register.
    Thermometer,
}

/// All that the driver knows: the settings in force in the device, whether
/// a new sample has been seen waiting, and the operation in flight.
#[derive(Debug, Clone, Copy, PartialEq, Eq, Structural)]
pub struct GyroState {
    pub scale: FullScale,
    pub rate: DataRate,
    pub power: Power,
    pub fresh: bool,
    pub phase: GyroPhase,
}

impl GyroCommand {
    /// The phase in which the operation starts.
    pub open spec fn spec_first_phase(self) -> GyroPhase {
        match self {
            GyroCommand::Init => GyroPhase::Waking,
            GyroCommand::SetScale(scale) => GyroPhase::ScaleRead { scale },
            GyroCommand::SetDataRate(rate) => GyroPhase::RateRead { rate },
            GyroCommand::DataReady => GyroPhase::Polling,
            GyroCommand::ReadAngularRate => GyroPhase::Sampling,
            GyroCommand::ReadTemperature => GyroPhase::Thermometer,
        }
    }

    /// Where the operation starts.
    #[verifier::when_used_as_spec(spec_first_phase)]
    pub fn first_phase(self) -> (phase: GyroPhase)
        ensures
            phase == self.spec_first_phase(),
    {
        match self {
            GyroCommand::Init => GyroPhase::Waking,
            GyroCommand::SetScale(scale) => GyroPhase::ScaleRead { scale },
            GyroCommand::SetDataRate(rate) => GyroPhase::RateRead { rate },
            GyroCommand::DataReady => GyroPhase::Polling,
            GyroCommand::ReadAngularRate => GyroPhase::Sampling,
            GyroCommand::ReadTemperature => GyroPhase::Thermometer,
        }
    }

    /// Whether the operation takes the waiting sample, or makes it stale.
    pub open spec fn spec_spends_sample(self) -> bool {
        self is ReadAngularRate || self is Init
    }

    /// Whether the operation uses up the sample that was seen waiting.
    #[verifier::when_used_as_spec(spec_spends_sample)]
    pub fn spends_sample(self) -> (spends: bool)
        ensures
            spends == self.spec_spends_sample(),
    {
        match self {
            GyroCommand::ReadAngularRate => true,
            GyroCommand::Init => true,
            _ => false,
        }
    }
}

impl GyroState {
    /// The driver as it is made: the device powered down at its default
    /// settings, nothing in flight.
    pub open spec fn initial() -> GyroState {
        GyroState {
            scale: FullScale::Dps250,
            rate: DataRate::Hz95,
            power: Power::Down,
            fresh: false,
            phase: GyroPhase::Idle,
        }
    }

    /// No operation is in flight.
    pub open spec fn idle(self) -> bool {
        self.phase is Idle
    }

    /// The transfer whose reply the driver is waiting for.
    pub open spec fn pending(self) -> Option<Request> {
        match self.phase {
            GyroPhase::Idle => None,
            GyroPhase::Waking => Some(Request::Delay { millis: STARTUP_DELAY_MS }),
            GyroPhase::Identifying => Some(spi_read(regs::WHO_AM_I)),
            GyroPhase::Configuring { register, .. } => Some(
                spi_write(register.address(), register.startup_value()),
            ),
            GyroPhase::Settling { .. } => Some(Request::Delay { millis: SETTLE_DELAY_MS }),
            GyroPhase::ScaleRead { .. } => Some(spi_read(regs::CTRL_REG4)),
            GyroPhase::ScaleWrite { scale, current } => Some(
                spi_write(regs::CTRL_REG4, with_field(current, FULL_SCALE_FIELD, scale.bits())),
            ),
            GyroPhase::RateRead { .. } => Some(spi_read(regs::CTRL_REG1)),
            GyroPhase::RateWrite { rate, current } => Some(
                spi_write(regs::CTRL_REG1, with_field(current, DATA_RATE_FIELD, rate.bits())),
            ),
            GyroPhase::Polling => Some(spi_read(regs::STATUS_REG)),
            GyroPhase::Sampling => Some(spi_burst(regs::OUT_X_L, SAMPLE_LEN)),
            GyroPhase::Thermometer => Some(spi_read(regs::OUT_TEMP)),
        }
    }

    /// The state once the pending transfer has run to its end and brought
    /// back `data`. A setting changes here and nowhere else: when the write
    /// that puts it in force has succeeded.
    pub open spec fn proceed(self, data: Seq<u8>) -> GyroState {
        match self.phase {
            GyroPhase::Idle => self,
            GyroPhase::Waking => GyroState { phase: GyroPhase::Identifying, ..self },
            GyroPhase::Identifying => GyroState {
                phase: GyroPhase::Configuring { register: ControlRegister::One, identity: data[0] },
                ..self
            },
            GyroPhase::Configuring { register, identity } => match register {
                ControlRegister::One => GyroState {
                    power: Power::Normal,
                    rate: DataRate::Hz95,
                    phase: GyroPhase::Configuring { register: ControlRegister::Two, identity },
                    ..self
                },
                ControlRegister::Two => GyroState {
                    phase: GyroPhase::Configuring { register: ControlRegister::Three, identity },
                    ..self
                },
                ControlRegister::Three => GyroState {
                    phase: GyroPhase::Configuring { register: ControlRegister::Four, identity },
                    ..self
                },
                ControlRegister::Four => GyroState {
                    scale: FullScale::Dps250,
                    phase: GyroPhase::Configuring { register: ControlRegister::Five, identity },
                    ..self
                },
                ControlRegister::Five => GyroState {
                    phase: GyroPhase::Settling { identity },
                    ..self
                },
            },
            GyroPhase::Settling { .. } => GyroState { phase: GyroPhase::Idle, ..self },
            GyroPhase::ScaleRead { scale } => GyroState {
                phase: GyroPhase::ScaleWrite { scale, current: data[0] },
                ..self
            },
            GyroPhase::ScaleWrite { scale, .. } => GyroState {
                scale,
                phase: GyroPhase::Idle,
                ..self
            },
            GyroPhase::RateRead { rate } => GyroState {
                phase: GyroPhase::RateWrite { rate, current: data[0] },
                ..self
            },
            GyroPhase::RateWrite { rate, .. } => GyroState { rate, phase: GyroPhase::Idle, ..self },
            GyroPhase::Polling => GyroState {
                fresh: data[0] & STATUS_ZYXDA != 0,
                phase: GyroPhase::Idle,
                ..self
            },
            GyroPhase::Sampling => GyroState { phase: GyroPhase::Idle, ..self },
            GyroPhase::Thermometer => GyroState { phase: GyroPhase::Idle, ..self },
        }
    }

    /// What the operation hands back if the pending transfer is its last
    /// and brings back `data`.
    pub open spec fn outcome(self, data: Seq<u8>) -> GyroOutcome {
        match self.phase {
            GyroPhase::Settling { identity } => GyroOutcome::Initialized {
                identity,
                recognized: identity_known(identity),
            },
            GyroPhase::Polling => GyroOutcome::DataReady(data[0] & STATUS_ZYXDA != 0),
            GyroPhase::Sampling => GyroOutcome::AngularRate(AngularRate::decode(data, self.scale)),
            GyroPhase::Thermometer => GyroOutcome::Temperature(signed8(data[0] as int) as i8),
            _ => GyroOutcome::Configured,
        }
    }

    /// Starting an operation. It is refused while another is in flight, and
    /// a sample is not read unless one has been seen waiting. Otherwise the
    /// operation's first transfer is asked for.
    pub open spec fn begin(self, command: GyroCommand) -> (GyroState, Step<GyroOutcome>) {
        if !self.idle() {
            (self, Step::Failed(DriverError::Busy))
        } else if command is ReadAngularRate && !self.fresh {
            (self, Step::Failed(DriverError::NotReady))
        } else {
            let next = GyroState {
                fresh: self.fresh && !command.spends_sample(),
                phase: command.first_phase(),
                ..self
            };
            (next, Step::Perform(next.pending().unwrap()))
        }
    }

    /// Taking the reply to the pending transfer. A transfer that did not
    /// run to its end ends the operation with the bus error and changes no
    /// setting. Otherwise the operation moves on: to its next transfer, or
    /// to its outcome.
    pub open spec fn advance(self, reply: Result<Seq<u8>, BusFault>) -> (
        GyroState,
        Step<GyroOutcome>,
    ) {
        match self.pending() {
            None => (self, Step::Failed(DriverError::Unexpected)),
            Some(request) => match request.accepted(reply) {
                Err(error) => (GyroState { phase: GyroPhase::Idle, ..self }, Step::Failed(error)),
                Ok(data) => {
                    let next = self.proceed(data);
                    match next.pending() {
                        Some(request) => (next, Step::Perform(request)),
                        None => (next, Step::Done(self.outcome(data))),
                    }
                },
            },
        }
    }
}

/// The driver of one L3GD20. It owns what is known of the device; only its
/// own operations change that.
#[derive(Debug)]
pub struct L3GD20 {
    state: GyroState,
}

impl View for L3GD20 {
    type V = GyroState;

    closed spec fn view(&self) -> GyroState {
        self.state
    }
}

impl L3GD20 {
    /// A driver for a device that is still powered down.
    pub fn new() -> (gyro: L3GD20)
        ensures
            gyro@ == GyroState::initial(),
    {
        L3GD20 {
            state: GyroState {
                scale: FullScale::Dps250,
                rate: DataRate::Hz95,
                power: Power::Down,
                fresh: false,
                phase: GyroPhase::Idle,
            },
        }
    }

    /// The full scale in force.
    pub fn scale(&self) -> (scale: FullScale)
        ensures
            scale == self@.scale,
    {
        self.state.scale
    }

    /// The data rate in force.
    pub fn data_rate(&self) -> (rate: DataRate)
        ensures
            rate == self@.rate,
    {
        self.state.rate
    }

    /// Whether the device has been switched on.
    pub fn power(&self) -> (power: Power)
        ensures
            power == self@.power,
    {
        self.state.power
    }

    /// Whether a new sample has been seen waiting and not been read yet.
    pub fn sample_waiting(&self) -> (fresh: bool)
        ensures
            fresh == self@.fresh,
    {
        self.state.fresh
    }

    /// Whether no operation is in flight.
    pub fn is_idle(&self) -> (idle: bool)
        ensures
            idle == self@.idle(),
    {
        match self.state.phase {
            GyroPhase::Idle => true,
            _ => false,
        }
    }

    /// The transfer whose reply the driver is waiting for.
    pub fn pending(&self) -> (request: Option<Request>)
        ensures
            request == self@.pending(),
    {
        match self.state.phase {
            GyroPhase::Idle => None,
            GyroPhase::Waking => Some(Request::Delay { millis: STARTUP_DELAY_MS }),
            GyroPhase::Identifying => Some(spi_read_register(regs::WHO_AM_I)),
            GyroPhase::Configuring { register, .. } => Some(
                spi_write_register(register.address(), register.startup_value()),
            ),
            GyroPhase::Settling { .. } => Some(Request::Delay { millis: SETTLE_DELAY_MS }),
            GyroPhase::ScaleRead { .. } => Some(spi_read_register(regs::CTRL_REG4)),
            GyroPhase::ScaleWrite { scale, current } => Some(
                spi_write_register(
                    regs::CTRL_REG4,
                    replace_field(current, FULL_SCALE_FIELD, scale.bits()),
                ),
            ),
            GyroPhase::RateRead { .. } => Some(spi_read_register(regs::CTRL_REG1)),
            GyroPhase::RateWrite { rate, current } => Some(
                spi_write_register(
                    regs::CTRL_REG1,
                    replace_field(current, DATA_RATE_FIELD, rate.bits()),
                ),
            ),
            GyroPhase::Polling => Some(spi_read_register(regs::STATUS_REG)),
            GyroPhase::Sampling => Some(spi_read_burst(regs::OUT_X_L, SAMPLE_LEN)),
            GyroPhase::Thermometer => Some(spi_read_register(regs::OUT_TEMP)),
        }
    }

    /// Starts an operation and answers with its first transfer, or with
    /// the reason why it does not start.
    pub fn start(&mut self, command: GyroCommand) -> (step: Step<GyroOutcome>)
        ensures
            (final(self)@, step) == old(self)@.begin(command),
    {
        if !self.is_idle() {
            return Step::Failed(DriverError::Busy);
        }
        match command {
            GyroCommand::ReadAngularRate => {
                if !self.state.fresh {
                    return Step::Failed(DriverError::NotReady);
                }
            },
            _ => {},
        }
        self.state.fresh = self.state.fresh && !command.spends_sample();
        self.state.phase = command.first_phase();
        match self.pending() {
            Some(request) => Step::Perform(request),
            None => Step::Failed(DriverError::Unexpected),
        }
    }

    /// Starts the initialisation: the identity register is read, the five
    /// control registers are written, and the device is left to settle.
    pub fn init(&mut self) -> (step: Step<GyroOutcome>)
        ensures
            (final(self)@, step) == old(self)@.begin(GyroCommand::Init),
    {
        self.start(GyroCommand::Init)
    }

    /// Starts the change of the full-scale range: the fourth control
    /// register is read and written back with its range bits replaced.
    pub fn set_scale(&mut self, scale: FullScale) -> (step: Step<GyroOutcome>)
        ensures
            (final(self)@, step) == old(self)@.begin(GyroCommand::SetScale(scale)),
    {
        self.start(GyroCommand::SetScale(scale))
    }

    /// Starts the change of the output data rate: the first control
    /// register is read and written back with its rate bits replaced.
    pub fn set_data_rate(&mut self, rate: DataRate) -> (step: Step<GyroOutcome>)
        ensures
            (final(self)@, step) == old(self)@.begin(GyroCommand::SetDataRate(rate)),
    {
        self.start(GyroCommand::SetDataRate(rate))
    }

    /// Starts a look at the status register.
    pub fn data_ready(&mut self) -> (step: Step<GyroOutcome>)
        ensures
            (final(self)@, step) == old(self)@.begin(GyroCommand::DataReady),
    {
        self.start(GyroCommand::DataReady)
    }

    /// Starts the read of the waiting sample.
    pub fn read_angular_rate(&mut self) -> (step: Step<GyroOutcome>)
        ensures
            (final(self)@, step) == old(self)@.begin(GyroCommand::ReadAngularRate),
    {
        self.start(GyroCommand::ReadAngularRate)
    }

    /// Starts the read of the temperature register.
    pub fn read_temperature(&mut self) -> (step: Step<GyroOutcome>)
        ensures
            (final(self)@, step) == old(self)@.begin(GyroCommand::ReadTemperature),
    {
        self.start(GyroCommand::ReadTemperature)
    }

    /// Takes the reply to the pending transfer and answers with what comes
    /// next.
    pub fn resume(&mut self, reply: Reply) -> (step: Step<GyroOutcome>)
        ensures
            (final(self)@, step) == old(self)@.advance(reply_view(reply)),
    {
        let request = match self.pending() {
            Some(request) => request,
            None => {
                return Step::Failed(DriverError::Unexpected);
            },
        };
        let data = match request.accept(reply) {
            Ok(data) => data,
            Err(error) => {
                self.state.phase = GyroPhase::Idle;
                return Step::Failed(error);
            },
        };
        let outcome = self.finish(&data);
        self.settle(&data);
        match self.pending() {
            Some(request) => Step::Perform(request),
            None => Step::Done(outcome),
        }
    }

    fn settle(&mut self, data: &Vec<u8>)
        requires
            old(self)@.pending() matches Some(request) && data@.len() == request.reply_len(),
        ensures
            final(self)@ == old(self)@.proceed(data@),
    {
        match self.state.phase {
            GyroPhase::Idle => {},
            GyroPhase::Waking => {
                self.state.phase = GyroPhase::Identifying;
            },
            GyroPhase::Identifying => {
                self.state.phase = GyroPhase::Configuring {
                    register: ControlRegister::One,
                    identity: data[0],
                };
            },
            GyroPhase::Configuring { register, identity } => match register {
                ControlRegister::One => {
                    self.state.power = Power::Normal;
                    self.state.rate = DataRate::Hz95;
                    self.state.phase = GyroPhase::Configuring {
                        register: ControlRegister::Two,
                        identity,
                    };
                },
                ControlRegister::Two => {
                    self.state.phase = GyroPhase::Configuring {
                        register: ControlRegister::Three,
                        identity,
                    };
                },
                ControlRegister::Three => {
                    self.state.phase = GyroPhase::Configuring {
                        register: ControlRegister::Four,
                        identity,
                    };
                },
                ControlRegister::Four => {
                    self.state.scale = FullScale::Dps250;
                    self.state.phase = GyroPhase::Configuring {
                        register: ControlRegister::Five,
                        identity,
                    };
                },
                ControlRegister::Five => {
                    self.state.phase = GyroPhase::Settling { identity };
                },
            },
            GyroPhase::Settling { .. } => {
                self.state.phase = GyroPhase::Idle;
            },
            GyroPhase::ScaleRead { scale } => {
                self.state.phase = GyroPhase::ScaleWrite { scale, current: data[0] };
            },
            GyroPhase::ScaleWrite { scale, .. } => {
                self.state.scale = scale;
                self.state.phase = GyroPhase::Idle;
            },
            GyroPhase::RateRead { rate } => {
                self.state.phase = GyroPhase::RateWrite { rate, current: data[0] };
            },
            GyroPhase::RateWrite { rate, .. } => {
                self.state.rate = rate;
                self.state.phase = GyroPhase::Idle;
            },
            GyroPhase::Polling => {
                self.state.fresh = data[0] & STATUS_ZYXDA != 0;
                self.state.phase = GyroPhase::Idle;
            },
            GyroPhase::Sampling => {
                self.state.phase = GyroPhase::Idle;
            },
            GyroPhase::Thermometer => {
                self.state.phase = GyroPhase::Idle;
            },
        }
    }

    fn finish(&self, data: &Vec<u8>) -> (outcome: GyroOutcome)
        requires
            self@.pending() matches Some(request) && data@.len() == request.reply_len(),
        ensures
            outcome == self@.outcome(data@),
    {
        match self.state.phase {
            GyroPhase::Settling { identity } => GyroOutcome::Initialized {
                identity,
                recognized: identity_recognized(identity),
            },
            GyroPhase::Polling => GyroOutcome::DataReady(data[0] & STATUS_ZYXDA != 0),
            GyroPhase::Sampling => {
                let sample: [u8; 6] = [data[0], data[1], data[2], data[3], data[4], data[5]];
                assert(sample@ =~= data@);
                GyroOutcome::AngularRate(AngularRate::from_registers(&sample, self.state.scale))
            },
            GyroPhase::Thermometer => GyroOutcome::Temperature(i8_from_byte(data[0])),
            _ => GyroOutcome::Configured,
        }
    }
}

impl FullScale {
    /// The code of a full-scale setting lies inside the range field.
    pub proof fn lemma_bits_in_field(self)
        ensures
            self.bits() & !FULL_SCALE_FIELD == 0,
            self.bits() & FULL_SCALE_FIELD == self.bits(),
    {
        let bits = self.bits();
        assert(bits & !0x30u8 == 0 && bits & 0x30u8 == bits) by (bit_vector)
            requires
                bits == 0x00 || bits == 0x10 || bits == 0x20,
        ;
    }

    /// Two full-scale settings with the same code are the same setting, and
    /// two different settings convert with different factors.
    pub proof fn law_settings_differ(self, other: FullScale)
        ensures
            self.bits() == other.bits() ==> self == other,
            self.sensitivity() == other.sensitivity() ==> self == other,
    {
    }
}

impl DataRate {
    /// The code of a data-rate setting lies inside the rate field.
    pub proof fn lemma_bits_in_field(self)
        ensures
            self.bits() & !DATA_RATE_FIELD == 0,
            self.bits() & DATA_RATE_FIELD == self.bits(),
    {
        let bits = self.bits();
        assert(bits & !0xF0u8 == 0 && bits & 0xF0u8 == bits) by (bit_vector)
            requires
                bits == 0x00 || bits == 0x10 || bits == 0x40 || bits == 0x50 || bits == 0x60
                    || bits == 0x70 || bits == 0x80 || bits == 0x90 || bits == 0xA0 || bits
                    == 0xB0 || bits == 0xC0 || bits == 0xD0 || bits == 0xE0 || bits == 0xF0,
        ;
    }
}

/// Initialisation is one fixed sequence of transfers: a wait, the read of
/// the identity register, the five control registers written in order, and
/// the wait for the device to settle. It ends with the device switched on
/// at its default range and rate, whatever the identity register held: an
/// unknown identity is reported and stops nothing.
pub proof fn law_init_sequence(state: GyroState, identity: u8)
    requires
        state.idle(),
    ensures
        ({
            let (s0, step0) = state.begin(GyroCommand::Init);
            let (s1, step1) = s0.advance(done());
            let (s2, step2) = s1.advance(data(seq![identity]));
            let (s3, step3) = s2.advance(done());
            let (s4, step4) = s3.advance(done());
            let (s5, step5) = s4.advance(done());
            let (s6, step6) = s5.advance(done());
            let (s7, step7) = s6.advance(done());
            let (s8, step8) = s7.advance(done());
            &&& step0 == Step::<GyroOutcome>::Perform(Request::Delay { millis: STARTUP_DELAY_MS })
            &&& step1 == Step::<GyroOutcome>::Perform(spi_read(regs::WHO_AM_I))
            &&& step2 == Step::<GyroOutcome>::Perform(spi_write(regs::CTRL_REG1, 0x0F))
            &&& step3 == Step::<GyroOutcome>::Perform(spi_write(regs::CTRL_REG2, 0x00))
            &&& step4 == Step::<GyroOutcome>::Perform(spi_write(regs::CTRL_REG3, 0x00))
            &&& step5 == Step::<GyroOutcome>::Perform(spi_write(regs::CTRL_REG4, 0x00))
            &&& step6 == Step::<GyroOutcome>::Perform(spi_write(regs::CTRL_REG5, 0x00))
            &&& step7 == Step::<GyroOutcome>::Perform(Request::Delay { millis: SETTLE_DELAY_MS })
            &&& step8 == Step::Done(
                GyroOutcome::Initialized { identity, recognized: identity_known(identity) },
            )
            &&& s8 == GyroState {
                scale: FullScale::Dps250,
                rate: DataRate::Hz95,
                power: Power::Normal,
                fresh: false,
                phase: GyroPhase::Idle,
            }
        }),
{
}

/// Changing the full scale is a read of the fourth control register and a
/// write of the same register. The byte written carries the new range bits
/// and, everywhere else, the bits that were read. Once the write has gone
/// through the new setting is in force, and nothing else has changed.
pub proof fn law_set_scale_round_trip(state: GyroState, scale: FullScale, current: u8)
    requires
        state.idle(),
    ensures
        ({
            let (s0, step0) = state.begin(GyroCommand::SetScale(scale));
            let (s1, step1) = s0.advance(data(seq![current]));
            let (s2, step2) = s1.advance(done());
            let written = with_field(current, FULL_SCALE_FIELD, scale.bits());
            &&& step0 == Step::<GyroOutcome>::Perform(spi_read(regs::CTRL_REG4))
            &&& step1 == Step::<GyroOutcome>::Perform(spi_write(regs::CTRL_REG4, written))
            &&& written & FULL_SCALE_FIELD == scale.bits()
            &&& written & !FULL_SCALE_FIELD == current & !FULL_SCALE_FIELD
            &&& step2 == Step::Done(GyroOutcome::Configured)
            &&& s2 == GyroState { scale, ..state }
        }),
{
    scale.lemma_bits_in_field();
    lemma_field_replaced(current, FULL_SCALE_FIELD, scale.bits());
}

/// Changing the data rate is a read of the first control register and a
/// write of the same register. The byte written carries the new rate bits
/// in its upper half and the lower half as it was read. Once the write has
/// gone through the new setting is in force, and nothing else has changed.
pub proof fn law_set_data_rate_round_trip(state: GyroState, rate: DataRate, current: u8)
    requires
        state.idle(),
    ensures
        ({
            let (s0, step0) = state.begin(GyroCommand::SetDataRate(rate));
            let (s1, step1) = s0.advance(data(seq![current]));
            let (s2, step2) = s1.advance(done());
            let written = with_field(current, DATA_RATE_FIELD, rate.bits());
            &&& step0 == Step::<GyroOutcome>::Perform(spi_read(regs::CTRL_REG1))
            &&& step1 == Step::<GyroOutcome>::Perform(spi_write(regs::CTRL_REG1, written))
            &&& written & DATA_RATE_FIELD == rate.bits()
            &&& written & !DATA_RATE_FIELD == current & !DATA_RATE_FIELD
            &&& step2 == Step::Done(GyroOutcome::Configured)
            &&& s2 == GyroState { rate, ..state }
        }),
{
    rate.lemma_bits_in_field();
    lemma_field_replaced(current, DATA_RATE_FIELD, rate.bits());
}

/// The full scale that the driver converts with is the one whose code was
/// last written to the range bits of the fourth control register. It
/// changes only when a write of that register has gone through, and then
/// it is the setting that the written byte selects.
pub proof fn law_scale_follows_register(state: GyroState, reply: Result<Seq<u8>, BusFault>)
    ensures
        ({
            let (next, step) = state.advance(reply);
            let wrote = state.pending() matches Some(Request::Write { value, .. })
                && state.pending() == Some(spi_write(regs::CTRL_REG4, value)) && !(step is Failed);
            &&& next.scale != state.scale ==> wrote
            &&& wrote ==> (state.pending() matches Some(Request::Write { value, .. }) && value
                & FULL_SCALE_FIELD == next.scale.bits())
        }),
        forall|command: GyroCommand| (#[trigger] state.begin(command)).0.scale == state.scale,
{
    lemma_spi_command(regs::CTRL_REG1, 0, 0);
    lemma_spi_command(regs::CTRL_REG2, 0, 0);
    lemma_spi_command(regs::CTRL_REG3, 0, 0);
    lemma_spi_command(regs::CTRL_REG4, 0, 0);
    lemma_spi_command(regs::CTRL_REG5, 0, 0);
    match state.phase {
        GyroPhase::Configuring { register: ControlRegister::Four, .. } => {
            assert(0x00u8 & 0x30u8 == 0) by (bit_vector);
        },
        GyroPhase::ScaleWrite { scale, current } => {
            scale.lemma_bits_in_field();
            lemma_field_replaced(current, FULL_SCALE_FIELD, scale.bits());
        },
        _ => {},
    }
}

/// The data rate that the driver holds is the one whose code was last
/// written to the rate bits of the first control register.
pub proof fn law_rate_follows_register(state: GyroState, reply: Result<Seq<u8>, BusFault>)
    ensures
        ({
            let (next, step) = state.advance(reply);
            let wrote = state.pending() matches Some(Request::Write { value, .. })
                && state.pending() == Some(spi_write(regs::CTRL_REG1, value)) && !(step is Failed);
            &&& next.rate != state.rate ==> wrote
            &&& wrote ==> (state.pending() matches Some(Request::Write { value, .. }) && value
                & DATA_RATE_FIELD == next.rate.bits())
        }),
        forall|command: GyroCommand| (#[trigger] state.begin(command)).0.rate == state.rate,
{
    lemma_spi_command(regs::CTRL_REG1, 0, 0);
    lemma_spi_command(regs::CTRL_REG2, 0, 0);
    lemma_spi_command(regs::CTRL_REG3, 0, 0);
    lemma_spi_command(regs::CTRL_REG4, 0, 0);
    lemma_spi_command(regs::CTRL_REG5, 0, 0);
    match state.phase {
        GyroPhase::Configuring { register: ControlRegister::One, .. } => {
            assert(0x0Fu8 & 0xF0u8 == 0) by (bit_vector);
        },
        GyroPhase::RateWrite { rate, current } => {
            rate.lemma_bits_in_field();
            lemma_field_replaced(current, DATA_RATE_FIELD, rate.bits());
        },
        _ => {},
    }
}

/// Asking for new data is one read of the status register, and the answer
/// is the register's data-available bit: false as long as the device has
/// not set it, true once it has. The driver remembers the answer.
pub proof fn law_data_ready_is_status_bit(state: GyroState, status: u8)
    requires
        state.idle(),
    ensures
        ({
            let (s0, step0) = state.begin(GyroCommand::DataReady);
            let (s1, step1) = s0.advance(data(seq![status]));
            let ready = status & STATUS_ZYXDA != 0;
            &&& step0 == Step::<GyroOutcome>::Perform(spi_read(regs::STATUS_REG))
            &&& step1 == Step::Done(GyroOutcome::DataReady(ready))
            &&& s1 == GyroState { fresh: ready, ..state }
        }),
{
}

/// No sample is read before the device has been seen to hold a new one.
/// The output registers are asked for only at the start of a sample read,
/// and only by a driver that has seen the data-available bit set since it
/// last read a sample; until then the read is refused and nothing goes out
/// on the bus. The driver comes to have seen the bit in one way only: by a
/// status read that comes back with the bit set.
pub proof fn law_no_sample_before_ready(
    state: GyroState,
    command: GyroCommand,
    reply: Result<Seq<u8>, BusFault>,
)
    ensures
        state.idle() && !state.fresh ==> state.begin(GyroCommand::ReadAngularRate) == (
            state,
            Step::<GyroOutcome>::Failed(DriverError::NotReady),
        ),
        state.begin(command).1 == Step::<GyroOutcome>::Perform(
            spi_burst(regs::OUT_X_L, SAMPLE_LEN),
        ) ==> state.fresh && command is ReadAngularRate,
        state.advance(reply).1 != Step::<GyroOutcome>::Perform(
            spi_burst(regs::OUT_X_L, SAMPLE_LEN),
        ),
        state.begin(command).0.fresh ==> state.fresh,
        state.begin(GyroCommand::ReadAngularRate).1 is Perform ==> !state.begin(
            GyroCommand::ReadAngularRate,
        ).0.fresh,
        state.advance(reply).0.fresh && !state.fresh ==> state.phase is Polling && (
        reply matches Ok(bytes) && bytes.len() == 1 && bytes[0] & STATUS_ZYXDA != 0),
{
    lemma_spi_command(regs::WHO_AM_I, 0, 0);
    lemma_spi_command(regs::CTRL_REG1, 0, 0);
    lemma_spi_command(regs::CTRL_REG4, 0, 0);
    lemma_spi_command(regs::STATUS_REG, 0, 0);
    lemma_spi_command(regs::OUT_TEMP, 0, 0);
    lemma_spi_command(regs::OUT_X_L, 0, SAMPLE_LEN);
}

/// A sample is six bytes read in one burst from the X-low register on, and
/// it is converted with the sensitivity of the full scale in force: each
/// axis is its signed word, low byte first, times that sensitivity.
pub proof fn law_sample_uses_scale_in_force(state: GyroState, bytes: Seq<u8>)
    requires
        state.idle(),
        state.fresh,
        bytes.len() == SAMPLE_LEN,
    ensures
        ({
            let (s0, step0) = state.begin(GyroCommand::ReadAngularRate);
            let (s1, step1) = s0.advance(data(bytes));
            &&& step0 == Step::<GyroOutcome>::Perform(spi_burst(regs::OUT_X_L, SAMPLE_LEN))
            &&& step1 matches Step::Done(GyroOutcome::AngularRate(rate))
            &&& rate.x == word(bytes[0], bytes[1]) * state.scale.sensitivity()
            &&& rate.y == word(bytes[2], bytes[3]) * state.scale.sensitivity()
            &&& rate.z == word(bytes[4], bytes[5]) * state.scale.sensitivity()
            &&& s1 == GyroState { fresh: false, ..state }
        }),
{
    let sensitivity = state.scale.sensitivity() as int;
    assert forall|lo: u8, hi: u8|
        -32768 * 70_000 <= #[trigger] word(lo, hi) * sensitivity <= 32767 * 70_000 by {
        let raw = word(lo, hi);
        assert(-32768 * 70_000 <= raw * sensitivity <= 32767 * 70_000) by (nonlinear_arith)
            requires
                -32768 <= raw <= 32767,
                0 <= sensitivity <= 70_000,
        ;
    }
}

/// A change of the full scale changes the conversion with it. Once the
/// change has gone through, the next sample that is seen waiting and read
/// is converted with the sensitivity of the new setting, whatever the
/// setting was before.
pub proof fn law_scale_change_changes_conversion(
    state: GyroState,
    scale: FullScale,
    current: u8,
    status: u8,
    bytes: Seq<u8>,
)
    requires
        state.idle(),
        status & STATUS_ZYXDA != 0,
        bytes.len() == SAMPLE_LEN,
    ensures
        ({
            let s0 = state.begin(GyroCommand::SetScale(scale)).0;
            let s1 = s0.advance(data(seq![current])).0;
            let s2 = s1.advance(done()).0;
            let s3 = s2.begin(GyroCommand::DataReady).0;
            let s4 = s3.advance(data(seq![status])).0;
            let s5 = s4.begin(GyroCommand::ReadAngularRate).0;
            let (s6, step) = s5.advance(data(bytes));
            &&& step matches Step::Done(GyroOutcome::AngularRate(rate))
            &&& rate.x == word(bytes[0], bytes[1]) * scale.sensitivity()
            &&& rate.y == word(bytes[2], bytes[3]) * scale.sensitivity()
            &&& rate.z == word(bytes[4], bytes[5]) * scale.sensitivity()
            &&& s6.scale == scale
        }),
{
    law_set_scale_round_trip(state, scale, current);
    let ready = GyroState { scale, ..state };
    law_data_ready_is_status_bit(ready, status);
    law_sample_uses_scale_in_force(GyroState { fresh: true, ..ready }, bytes);
}

/// The temperature is the temperature register read as a signed byte, one
/// digit per degree, with no correction.
pub proof fn law_temperature_is_signed_register(state: GyroState, byte: u8)
    requires
        state.idle(),
    ensures
        ({
            let (s0, step0) = state.begin(GyroCommand::ReadTemperature);
            let (s1, step1) = s0.advance(data(seq![byte]));
            &&& step0 == Step::<GyroOutcome>::Perform(spi_read(regs::OUT_TEMP))
            &&& step1 matches Step::Done(GyroOutcome::Temperature(degrees))
            &&& degrees == signed8(byte as int)
            &&& s1 == state
        }),
{
}

/// A fault on the bus comes out of the driver as it went in. Whatever
/// transfer is pending, a reply that is a fault ends the operation with
/// that fault, and a reply of the wrong length ends it with a framing
/// fault. The driver is idle again and its settings are as they were.
pub proof fn law_bus_fault_surfaces(state: GyroState, reply: Result<Seq<u8>, BusFault>)
    requires
        state.pending() matches Some(request) && !(request is Delay),
    ensures
        reply matches Err(fault) ==> state.advance(reply) == (
            GyroState { phase: GyroPhase::Idle, ..state },
            Step::<GyroOutcome>::Failed(DriverError::Bus(fault)),
        ),
        reply matches Ok(bytes) ==> (bytes.len() != state.pending().unwrap().reply_len()
            ==> state.advance(reply) == (
            GyroState { phase: GyroPhase::Idle, ..state },
            Step::<GyroOutcome>::Failed(DriverError::Bus(BusFault::Framing)),
        )),
        state.advance(reply).1 is Failed <==> (reply is Err || (reply matches Ok(bytes)
            && bytes.len() != state.pending().unwrap().reply_len())),
{
}

/// One operation at a time, each run to its end: while an operation is in
/// flight every other one is refused and the driver is left as it is, and
/// a reply that no transfer is waiting for is refused as well.
pub proof fn law_one_operation_at_a_time(
    state: GyroState,
    command: GyroCommand,
    reply: Result<Seq<u8>, BusFault>,
)
    ensures
        !state.idle() ==> state.begin(command) == (
            state,
            Step::<GyroOutcome>::Failed(DriverError::Busy),
        ),
        state.idle() ==> state.advance(reply) == (
            state,
            Step::<GyroOutcome>::Failed(DriverError::Unexpected),
        ),
        state.begin(command).1 matches Step::Perform(request) ==> state.begin(
            command,
        ).0.pending() == Some(request),
        state.advance(reply).1 matches Step::Perform(request) ==> state.advance(
            reply,
        ).0.pending() == Some(request),
        !(state.begin(command).1 is Perform) ==> state.begin(command).0 == state,
        !(state.advance(reply).1 is Perform) ==> state.advance(reply).0.idle(),
        !(state.begin(command).1 is Done),
{
}


} // verus!
