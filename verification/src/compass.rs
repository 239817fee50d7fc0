//! LSM303DLHC e-compass on the I2C bus: an accelerometer and a magnetometer
//! in one package, each with an address and a register map of its own.
//!
//! The driver is a state machine. An operation is started with one of the
//! methods of [`LSM303DLHC`], which answers with the first transfer to
//! perform; each reply is handed to [`LSM303DLHC::resume`] until the
//! operation is done or has failed. Both devices sit on one bus, so the
//! driver has one operation in flight at most. What the machine does is laid
//! down by [`CompassState`], on which the laws at the end of this module are
//! proved: they hold of every reply, one transfer at a time. What whole
//! operations do to a package that works is proved in [`device`].

use crate::bus::{i2c_burst, i2c_read, i2c_write};
use crate::bus::{i2c_read_burst, i2c_read_register, i2c_write_register};
use crate::bus::{data, done, reply_view};
use crate::bus::{BusFault, DriverError, Reply, Request, Step};
use crate::word::{i16_from_be, i16_from_le, replace_field, sample12};
use crate::word::{lemma_field_replaced, upper12, with_field, word};
use vstd::prelude::*;

pub mod accel_regs;
pub mod device;
pub mod mag_regs;

verus! {

/// 7-bit bus address of the accelerometer.
pub const ACCEL_ADDR: u8 = 0x19;

/// 7-bit bus address of the magnetometer.
pub const MAG_ADDR: u8 = 0x1E;

/// Flag in a register address sent to the accelerometer: set, the device
/// moves on to the next register after each byte of a burst.
pub const ACCEL_AUTO_INCREMENT: u8 = 0x80;

/// The range-select bits of the accelerometer's fourth control register.
pub const ACCEL_SCALE_FIELD: u8 = 0x30;

/// The rate bits of the accelerometer's first control register.
pub const ACCEL_RATE_FIELD: u8 = 0xF0;

/// The rate bits of the magnetometer's first configuration register.
pub const MAG_RATE_FIELD: u8 = 0x1C;

/// The bit of the accelerometer's status register that tells of new data on
/// all three axes.
pub const ACCEL_STATUS_ZYXDA: u8 = 0x08;

/// The bit of the magnetometer's status register that tells of new data.
pub const MAG_STATUS_DRDY: u8 = 0x01;

/// Time that either device takes to settle once it is configured, in
/// milliseconds.
pub const SETTLE_DELAY_MS: u32 = 10;

/// The number of bytes that hold one sample: three axes of two bytes each.
pub const SAMPLE_LEN: usize = 6;

/// Accelerometer full-scale selection.
#[derive(Debug, Clone, Copy, PartialEq, Eq, Structural)]
pub enum AccelScale {
    /// ±2g
    G2,
    /// ±4g
    G4,
    /// ±8g
    G8,
    /// ±16g
    G16,
}

impl AccelScale {
    /// The range-select bits that stand for this setting in the fourth
    /// control register.
    pub open spec fn spec_bits(self) -> u8 {
        match self {
            AccelScale::G2 => 0x00,
            AccelScale::G4 => 0x10,
            AccelScale::G8 => 0x20,
            AccelScale::G16 => 0x30,
        }
    }

    /// The code of this setting, at its place in its register.
    #[verifier::when_used_as_spec(spec_bits)]
    pub fn bits(self) -> (bits: u8)
        ensures
            bits == self.spec_bits(),
    {
        match self {
            AccelScale::G2 => 0x00,
            AccelScale::G4 => 0x10,
            AccelScale::G8 => 0x20,
            AccelScale::G16 => 0x30,
        }
    }

    /// What one digit of a 12-bit sample is worth at this setting, in
    /// milli-g.
    pub open spec fn spec_sensitivity(self) -> u16 {
        match self {
            AccelScale::G2 => 1,
            AccelScale::G4 => 2,
            AccelScale::G8 => 4,
            AccelScale::G16 => 12,
        }
    }

    /// Milli-g per digit at this setting.
    #[verifier::when_used_as_spec(spec_sensitivity)]
    pub fn sensitivity(self) -> (milli_g: u16)
        ensures
            milli_g == self.spec_sensitivity(),
    {
        match self {
            AccelScale::G2 => 1,
            AccelScale::G4 => 2,
            AccelScale::G8 => 4,
            AccelScale::G16 => 12,
        }
    }
}

/// Magnetometer gain selection.
#[derive(Debug, Clone, Copy, PartialEq, Eq, Structural)]
pub enum MagGain {
    /// ±1.3 gauss
    Gauss1_3,
    /// ±1.9 gauss
    Gauss1_9,
    /// ±2.5 gauss
    Gauss2_5,
    /// ±4.0 gauss
    Gauss4_0,
    /// ±4.7 gauss
    Gauss4_7,
    /// ±5.6 gauss
    Gauss5_6,
    /// ±8.1 gauss
    Gauss8_1,
}

impl MagGain {
    /// What the gain register holds at this setting. The gain has the
    /// register to itself.
    pub open spec fn spec_bits(self) -> u8 {
        match self {
            MagGain::Gauss1_3 => 0x20,
            MagGain::Gauss1_9 => 0x40,
            MagGain::Gauss2_5 => 0x60,
            MagGain::Gauss4_0 => 0x80,
            MagGain::Gauss4_7 => 0xA0,
            MagGain::Gauss5_6 => 0xC0,
            MagGain::Gauss8_1 => 0xE0,
        }
    }

    /// The code of this setting, at its place in its register.
    #[verifier::when_used_as_spec(spec_bits)]
    pub fn bits(self) -> (bits: u8)
        ensures
            bits == self.spec_bits(),
    {
        match self {
            MagGain::Gauss1_3 => 0x20,
            MagGain::Gauss1_9 => 0x40,
            MagGain::Gauss2_5 => 0x60,
            MagGain::Gauss4_0 => 0x80,
            MagGain::Gauss4_7 => 0xA0,
            MagGain::Gauss5_6 => 0xC0,
            MagGain::Gauss8_1 => 0xE0,
        }
    }

    /// Digits per gauss on the X and Y axes at this gain.
    pub open spec fn spec_sensitivity_xy(self) -> u16 {
        match self {
            MagGain::Gauss1_3 => 1100,
            MagGain::Gauss1_9 => 855,
            MagGain::Gauss2_5 => 670,
            MagGain::Gauss4_0 => 450,
            MagGain::Gauss4_7 => 400,
            MagGain::Gauss5_6 => 330,
            MagGain::Gauss8_1 => 230,
        }
    }

    /// Digits per gauss on the X and Y axes at this gain.
    #[verifier::when_used_as_spec(spec_sensitivity_xy)]
    pub fn sensitivity_xy(self) -> (per_gauss: u16)
        ensures
            per_gauss == self.spec_sensitivity_xy(),
    {
        match self {
            MagGain::Gauss1_3 => 1100,
            MagGain::Gauss1_9 => 855,
            MagGain::Gauss2_5 => 670,
            MagGain::Gauss4_0 => 450,
            MagGain::Gauss4_7 => 400,
            MagGain::Gauss5_6 => 330,
            MagGain::Gauss8_1 => 230,
        }
    }

    /// Digits per gauss on the Z axis at this gain. The Z coil is built
    /// differently and is less sensitive than the other two.
    pub open spec fn spec_sensitivity_z(self) -> u16 {
        match self {
            MagGain::Gauss1_3 => 980,
            MagGain::Gauss1_9 => 760,
            MagGain::Gauss2_5 => 600,
            MagGain::Gauss4_0 => 400,
            MagGain::Gauss4_7 => 355,
            MagGain::Gauss5_6 => 295,
            MagGain::Gauss8_1 => 205,
        }
    }

    /// Digits per gauss on the Z axis at this gain.
    #[verifier::when_used_as_spec(spec_sensitivity_z)]
    pub fn sensitivity_z(self) -> (per_gauss: u16)
        ensures
            per_gauss == self.spec_sensitivity_z(),
    {
        match self {
            MagGain::Gauss1_3 => 980,
            MagGain::Gauss1_9 => 760,
            MagGain::Gauss2_5 => 600,
            MagGain::Gauss4_0 => 400,
            MagGain::Gauss4_7 => 355,
            MagGain::Gauss5_6 => 295,
            MagGain::Gauss8_1 => 205,
        }
    }
}

/// Accelerometer data rate.
#[derive(Debug, Clone, Copy, PartialEq, Eq, Structural)]
pub enum AccelDataRate {
    /// Power-down mode
    PowerDown,
    /// 1 Hz
    Hz1,
    /// 10 Hz
    Hz10,
    /// 25 Hz
    Hz25,
    /// 50 Hz
    Hz50,
    /// 100 Hz
    Hz100,
    /// 200 Hz
    Hz200,
    /// 400 Hz
    Hz400,
    /// 1620 Hz (low power)
    Hz1620LP,
    /// 1344 Hz (normal) / 5376 Hz (low power)
    Hz1344,
}

impl AccelDataRate {
    /// The rate bits that stand for this setting in the first control
    /// register.
    pub open spec fn spec_bits(self) -> u8 {
        match self {
            AccelDataRate::PowerDown => 0x00,
            AccelDataRate::Hz1 => 0x10,
            AccelDataRate::Hz10 => 0x20,
            AccelDataRate::Hz25 => 0x30,
            AccelDataRate::Hz50 => 0x40,
            AccelDataRate::Hz100 => 0x50,
            AccelDataRate::Hz200 => 0x60,
            AccelDataRate::Hz400 => 0x70,
            AccelDataRate::Hz1620LP => 0x80,
            AccelDataRate::Hz1344 => 0x90,
        }
    }

    /// The code of this setting, at its place in its register.
    #[verifier::when_used_as_spec(spec_bits)]
    pub fn bits(self) -> (bits: u8)
        ensures
            bits == self.spec_bits(),
    {
        match self {
            AccelDataRate::PowerDown => 0x00,
            AccelDataRate::Hz1 => 0x10,
            AccelDataRate::Hz10 => 0x20,
            AccelDataRate::Hz25 => 0x30,
            AccelDataRate::Hz50 => 0x40,
            AccelDataRate::Hz100 => 0x50,
            AccelDataRate::Hz200 => 0x60,
            AccelDataRate::Hz400 => 0x70,
            AccelDataRate::Hz1620LP => 0x80,
            AccelDataRate::Hz1344 => 0x90,
        }
    }
}

/// Magnetometer data rate.
#[derive(Debug, Clone, Copy, PartialEq, Eq, Structural)]
pub enum MagDataRate {
    /// 0.75 Hz
    Hz0_75,
    /// 1.5 Hz
    Hz1_5,
    /// 3 Hz
    Hz3,
    /// 7.5 Hz
    Hz7_5,
    /// 15 Hz
    Hz15,
    /// 30 Hz
    Hz30,
    /// 75 Hz
    Hz75,
    /// 220 Hz
    Hz220,
}

impl MagDataRate {
    /// The rate bits that stand for this setting in the first configuration
    /// register.
    pub open spec fn spec_bits(self) -> u8 {
        match self {
            MagDataRate::Hz0_75 => 0x00,
            MagDataRate::Hz1_5 => 0x04,
            MagDataRate::Hz3 => 0x08,
            MagDataRate::Hz7_5 => 0x0C,
            MagDataRate::Hz15 => 0x10,
            MagDataRate::Hz30 => 0x14,
            MagDataRate::Hz75 => 0x18,
            MagDataRate::Hz220 => 0x1C,
        }
    }

    /// The code of this setting, at its place in its register.
    #[verifier::when_used_as_spec(spec_bits)]
    pub fn bits(self) -> (bits: u8)
        ensures
            bits == self.spec_bits(),
    {
        match self {
            MagDataRate::Hz0_75 => 0x00,
            MagDataRate::Hz1_5 => 0x04,
            MagDataRate::Hz3 => 0x08,
            MagDataRate::Hz7_5 => 0x0C,
            MagDataRate::Hz15 => 0x10,
            MagDataRate::Hz30 => 0x14,
            MagDataRate::Hz75 => 0x18,
            MagDataRate::Hz220 => 0x1C,
        }
    }
}

/// Acceleration along the three axes, in milli-g.
#[derive(Debug, Default, Clone, Copy, PartialEq, Eq, Structural)]
pub struct Acceleration {
    pub x: i32,
    pub y: i32,
    pub z: i32,
}

impl Acceleration {
    /// The acceleration that six output bytes stand for at a full-scale
    /// setting. The bytes are those of the registers from X-low on: each
    /// axis is a signed word, low byte first, X then Y then Z. Only the
    /// upper twelve bits of a word count; they are digits of the setting's
    /// sensitivity.
    pub open spec fn decode(data: Seq<u8>, scale: AccelScale) -> Acceleration {
        Acceleration {
            x: (upper12(word(data[0], data[1])) * scale.sensitivity()) as i32,
            y: (upper12(word(data[2], data[3])) * scale.sensitivity()) as i32,
            z: (upper12(word(data[4], data[5])) * scale.sensitivity()) as i32,
        }
    }

    /// Converts the six output bytes of one sample.
    pub fn from_registers(data: &[u8; 6], scale: AccelScale) -> (acceleration: Acceleration)
        ensures
            acceleration == Acceleration::decode(data@, scale),
            acceleration.x == upper12(word(data@[0], data@[1])) * scale.sensitivity(),
            acceleration.y == upper12(word(data@[2], data@[3])) * scale.sensitivity(),
            acceleration.z == upper12(word(data@[4], data@[5])) * scale.sensitivity(),
    {
        Acceleration {
            x: milli_g(sample12(i16_from_le(data[0], data[1])), scale),
            y: milli_g(sample12(i16_from_le(data[2], data[3])), scale),
            z: milli_g(sample12(i16_from_le(data[4], data[5])), scale),
        }
    }
}

/// A 12-bit sample in milli-g.
fn milli_g(sample: i16, scale: AccelScale) -> (value: i32)
    requires
        -2048 <= sample <= 2047,
    ensures
        value == sample * scale.sensitivity(),
{
    let sensitivity: i32 = scale.sensitivity() as i32;
    assert(-2048 * 12 <= sample * sensitivity <= 2047 * 12) by (nonlinear_arith)
        requires
            -2048 <= sample <= 2047,
            0 <= sensitivity <= 12,
    ;
    (sample as i32) * sensitivity
}

/// The number of micro-gauss in a gauss.
pub const MICRO: i64 = 1_000_000;

/// Whole micro-gauss in `digits` digits at `per_gauss` digits per gauss,
/// what is left over of a micro-gauss dropped.
pub open spec fn micro_gauss(digits: int, per_gauss: int) -> int {
    if digits >= 0 {
        (digits * MICRO) / per_gauss
    } else {
        -((-digits * MICRO) / per_gauss)
    }
}

/// Magnetic field along the three axes, in micro-gauss.
#[derive(Debug, Default, Clone, Copy, PartialEq, Eq, Structural)]
pub struct MagneticField {
    pub x: i32,
    pub y: i32,
    pub z: i32,
}

impl MagneticField {
    /// The magnetic field that six output bytes stand for at a gain. The
    /// bytes are those of the registers from X-high on, and the device
    /// keeps them in the order X, Z, Y: the first pair is X, the second is
    /// Z, the third is Y. Each pair is a signed word, high byte first. X
    /// and Y count digits of the gain's X/Y sensitivity, Z digits of its Z
    /// sensitivity.
    pub open spec fn decode(data: Seq<u8>, gain: MagGain) -> MagneticField {
        MagneticField {
            x: micro_gauss(word(data[1], data[0]), gain.sensitivity_xy() as int) as i32,
            y: micro_gauss(word(data[5], data[4]), gain.sensitivity_xy() as int) as i32,
            z: micro_gauss(word(data[3], data[2]), gain.sensitivity_z() as int) as i32,
        }
    }

    /// Converts the six output bytes of one sample.
    pub fn from_registers(data: &[u8; 6], gain: MagGain) -> (field: MagneticField)
        ensures
            field == MagneticField::decode(data@, gain),
            field.x == micro_gauss(word(data@[1], data@[0]), gain.sensitivity_xy() as int),
            field.y == micro_gauss(word(data@[5], data@[4]), gain.sensitivity_xy() as int),
            field.z == micro_gauss(word(data@[3], data@[2]), gain.sensitivity_z() as int),
    {
        let raw_x: i16 = i16_from_be(data[0], data[1]);
        let raw_z: i16 = i16_from_be(data[2], data[3]);
        let raw_y: i16 = i16_from_be(data[4], data[5]);
        let per_gauss_xy: u16 = gain.sensitivity_xy();
        let per_gauss_z: u16 = gain.sensitivity_z();
        MagneticField {
            x: to_micro_gauss(raw_x, per_gauss_xy),
            y: to_micro_gauss(raw_y, per_gauss_xy),
            z: to_micro_gauss(raw_z, per_gauss_z),
        }
    }
}

/// The least sensitivity of any axis at any gain, in digits per gauss.
pub const LEAST_PER_GAUSS: u16 = 205;

/// No axis at any gain is less sensitive than [`LEAST_PER_GAUSS`], so a
/// full word never stands for more micro-gauss than an `i32` holds.
pub proof fn lemma_micro_gauss_bounds(digits: int, per_gauss: int)
    requires
        -32768 <= digits <= 32767,
        LEAST_PER_GAUSS <= per_gauss,
    ensures
        -159_843_903 < micro_gauss(digits, per_gauss) < 159_843_903,
{
    let magnitude: int = if digits >= 0 {
        digits * MICRO
    } else {
        -digits * MICRO
    };
    let quotient: int = magnitude / per_gauss;
    assert(0 <= quotient && quotient * 205 <= 32768 * 1_000_000) by (nonlinear_arith)
        requires
            0 <= magnitude <= 32768 * 1_000_000,
            205 <= per_gauss,
            quotient == magnitude / per_gauss,
    ;
}

/// A raw word in micro-gauss.
fn to_micro_gauss(raw: i16, per_gauss: u16) -> (value: i32)
    requires
        LEAST_PER_GAUSS <= per_gauss,
    ensures
        value == micro_gauss(raw as int, per_gauss as int),
{
    proof {
        lemma_micro_gauss_bounds(raw as int, per_gauss as int);
    }
    let scaled: i64 = (raw as i64) * MICRO;
    (scaled / (per_gauss as i64)) as i32
}

impl MagGain {
    /// Every sensitivity in the table is at least [`LEAST_PER_GAUSS`].
    pub proof fn lemma_sensitivity_bounds(self)
        ensures
            LEAST_PER_GAUSS <= self.sensitivity_z() < self.sensitivity_xy() <= 1100,
    {
    }
}

/// The steps of initialisation, in the order in which they are taken: the
/// five control registers of the accelerometer, a wait, the three
/// configuration registers of the magnetometer, a wait.
#[derive(Debug, Clone, Copy, PartialEq, Eq, Structural)]
pub enum StartupStep {
    AccelControl1,
    AccelControl2,
    AccelControl3,
    AccelControl4,
    AccelControl5,
    AccelSettle,
    MagRate,
    MagGain,
    MagMode,
    MagSettle,
}

impl StartupStep {
    /// What the step asks for. The accelerometer is set to normal power at
    /// 100 Hz with all axes enabled, no high-pass filter, no interrupts,
    /// continuous update at high resolution and ±2g, no FIFO. The
    /// magnetometer is set to 15 Hz with its temperature sensor enabled,
    /// ±1.3 gauss, and continuous conversion.
    pub open spec fn spec_request(self) -> Request {
        match self {
            StartupStep::AccelControl1 => i2c_write(ACCEL_ADDR, accel_regs::CTRL_REG1_A, 0x57),
            StartupStep::AccelControl2 => i2c_write(ACCEL_ADDR, accel_regs::CTRL_REG2_A, 0x00),
            StartupStep::AccelControl3 => i2c_write(ACCEL_ADDR, accel_regs::CTRL_REG3_A, 0x00),
            StartupStep::AccelControl4 => i2c_write(ACCEL_ADDR, accel_regs::CTRL_REG4_A, 0x08),
            StartupStep::AccelControl5 => i2c_write(ACCEL_ADDR, accel_regs::CTRL_REG5_A, 0x00),
            StartupStep::AccelSettle => Request::Delay { millis: SETTLE_DELAY_MS },
            StartupStep::MagRate => i2c_write(MAG_ADDR, mag_regs::CRA_REG_M, 0x90),
            StartupStep::MagGain => i2c_write(MAG_ADDR, mag_regs::CRB_REG_M, 0x20),
            StartupStep::MagMode => i2c_write(MAG_ADDR, mag_regs::MR_REG_M, 0x00),
            StartupStep::MagSettle => Request::Delay { millis: SETTLE_DELAY_MS },
        }
    }

    /// The transfer or the wait that makes up the step.
    #[verifier::when_used_as_spec(spec_request)]
    pub fn request(self) -> (request: Request)
        ensures
            request == self.spec_request(),
    {
        match self {
            StartupStep::AccelControl1 => i2c_write_register(
                ACCEL_ADDR,
                accel_regs::CTRL_REG1_A,
                0x57,
            ),
            StartupStep::AccelControl2 => i2c_write_register(
                ACCEL_ADDR,
                accel_regs::CTRL_REG2_A,
                0x00,
            ),
            StartupStep::AccelControl3 => i2c_write_register(
                ACCEL_ADDR,
                accel_regs::CTRL_REG3_A,
                0x00,
            ),
            StartupStep::AccelControl4 => i2c_write_register(
                ACCEL_ADDR,
                accel_regs::CTRL_REG4_A,
                0x08,
            ),
            StartupStep::AccelControl5 => i2c_write_register(
                ACCEL_ADDR,
                accel_regs::CTRL_REG5_A,
                0x00,
            ),
            StartupStep::AccelSettle => Request::Delay { millis: SETTLE_DELAY_MS },
            StartupStep::MagRate => i2c_write_register(MAG_ADDR, mag_regs::CRA_REG_M, 0x90),
            StartupStep::MagGain => i2c_write_register(MAG_ADDR, mag_regs::CRB_REG_M, 0x20),
            StartupStep::MagMode => i2c_write_register(MAG_ADDR, mag_regs::MR_REG_M, 0x00),
            StartupStep::MagSettle => Request::Delay { millis: SETTLE_DELAY_MS },
        }
    }

    /// The step that follows, if any.
    pub open spec fn spec_next(self) -> Option<StartupStep> {
        match self {
            StartupStep::AccelControl1 => Some(StartupStep::AccelControl2),
            StartupStep::AccelControl2 => Some(StartupStep::AccelControl3),
            StartupStep::AccelControl3 => Some(StartupStep::AccelControl4),
            StartupStep::AccelControl4 => Some(StartupStep::AccelControl5),
            StartupStep::AccelControl5 => Some(StartupStep::AccelSettle),
            StartupStep::AccelSettle => Some(StartupStep::MagRate),
            StartupStep::MagRate => Some(StartupStep::MagGain),
            StartupStep::MagGain => Some(StartupStep::MagMode),
            StartupStep::MagMode => Some(StartupStep::MagSettle),
            StartupStep::MagSettle => None,
        }
    }

    /// The step to take after this one, if there is one.
    #[verifier::when_used_as_spec(spec_next)]
    pub fn next(self) -> (next: Option<StartupStep>)
        ensures
            next == self.spec_next(),
    {
        match self {
            StartupStep::AccelControl1 => Some(StartupStep::AccelControl2),
            StartupStep::AccelControl2 => Some(StartupStep::AccelControl3),
            StartupStep::AccelControl3 => Some(StartupStep::AccelControl4),
            StartupStep::AccelControl4 => Some(StartupStep::AccelControl5),
            StartupStep::AccelControl5 => Some(StartupStep::AccelSettle),
            StartupStep::AccelSettle => Some(StartupStep::MagRate),
            StartupStep::MagRate => Some(StartupStep::MagGain),
            StartupStep::MagGain => Some(StartupStep::MagMode),
            StartupStep::MagMode => Some(StartupStep::MagSettle),
            StartupStep::MagSettle => None,
        }
    }
}

/// An operation of the driver.
#[derive(Debug, Clone, Copy, PartialEq, Eq, Structural)]
pub enum CompassCommand {
    /// Configure both devices and let each settle.
    Init,
    /// Select the accelerometer's full-scale range.
    SetAccelScale(AccelScale),
    /// Select the accelerometer's data rate.
    SetAccelDataRate(AccelDataRate),
    /// Select the magnetometer's gain.
    SetMagGain(MagGain),
    /// Select the magnetometer's data rate.
    SetMagDataRate(MagDataRate),
    /// Ask whether a new acceleration sample is waiting.
    AccelDataReady,
    /// Ask whether a new magnetic sample is waiting.
    MagDataReady,
    /// Read the acceleration sample that is waiting.
    ReadAcceleration,
    /// Read the magnetic sample that is waiting.
    ReadMagneticField,
    /// Read the magnetometer's temperature sensor.
    ReadTemperature,
}

/// What a finished operation hands back.
#[derive(Debug, Clone, Copy, PartialEq, Eq, Structural)]
pub enum CompassOutcome {
    /// Both devices are configured and have settled.
    Initialized,
    /// The setting is written and in force.
    Configured,
    /// Whether a new acceleration sample is waiting on all three axes.
    AccelDataReady(bool),
    /// Whether a new magnetic sample is waiting.
    MagDataReady(bool),
    /// The acceleration sample, converted at the full scale in force.
    Acceleration(Acceleration),
    /// The magnetic sample, converted at the gain in force.
    MagneticField(MagneticField),
    /// The temperature sensor's 12-bit reading.
    Temperature(i16),
}

/// Where the driver stands in the operation in flight.
#[derive(Debug, Clone, Copy, PartialEq, Eq, Structural)]
pub enum CompassPhase {
    /// No operation is in flight.
    Idle,
    /// Taking a step of the initialisation.
    Starting { step: StartupStep },
    /// Reading the accelerometer's fourth control register, to change its
    /// range bits.
    AccelScaleRead { scale: AccelScale },
    /// Writing that register back; `current` is what was read.
    AccelScaleWrite { scale: AccelScale, current: u8 },
    /// Reading the accelerometer's first control register, to change its
    /// rate bits.
    AccelRateRead { accel_rate: AccelDataRate },
    /// Writing that register back; `current` is what was read.
    AccelRateWrite { accel_rate: AccelDataRate, current: u8 },
    /// Writing the magnetometer's gain register.
    MagGainWrite { gain: MagGain },
    /// Reading the magnetometer's first configuration register, to change
    /// its rate bits.
    MagRateRead { mag_rate: MagDataRate },
    /// Writing that register back; `current` is what was read.
    MagRateWrite { mag_rate: MagDataRate, current: u8 },
    /// Reading the accelerometer's status register.
    AccelPolling,
    /// Reading the magnetometer's status register.
    MagPolling,
    /// Reading the accelerometer's six output registers.
    AccelSampling,
    /// Reading the magnetometer's six output registers.
    MagSampling,
    /// Reading the high byte of the temperature.
    TemperatureHigh,
    /// Reading the low byte of the temperature; `high` is the high byte.
    TemperatureLow { high: u8 },
}

/// All that the driver knows: the settings in force in the two devices,
/// whether a new sample of either has been seen waiting, and the operation
/// in flight.
#[derive(Debug, Clone, Copy, PartialEq, Eq, Structural)]
pub struct CompassState {
    pub accel_scale: AccelScale,
    pub accel_rate: AccelDataRate,
    pub mag_gain: MagGain,
    pub mag_rate: MagDataRate,
    pub accel_fresh: bool,
    pub mag_fresh: bool,
    pub phase: CompassPhase,
}

impl CompassCommand {
    /// The phase in which the operation starts.
    pub open spec fn spec_first_phase(self) -> CompassPhase {
        match self {
            CompassCommand::Init => CompassPhase::Starting { step: StartupStep::AccelControl1 },
            CompassCommand::SetAccelScale(scale) => CompassPhase::AccelScaleRead { scale },
            CompassCommand::SetAccelDataRate(rate) => CompassPhase::AccelRateRead { accel_rate: rate },
            CompassCommand::SetMagGain(gain) => CompassPhase::MagGainWrite { gain },
            CompassCommand::SetMagDataRate(rate) => CompassPhase::MagRateRead { mag_rate: rate },
            CompassCommand::AccelDataReady => CompassPhase::AccelPolling,
            CompassCommand::MagDataReady => CompassPhase::MagPolling,
            CompassCommand::ReadAcceleration => CompassPhase::AccelSampling,
            CompassCommand::ReadMagneticField => CompassPhase::MagSampling,
            CompassCommand::ReadTemperature => CompassPhase::TemperatureHigh,
        }
    }

    /// Where the operation starts.
    #[verifier::when_used_as_spec(spec_first_phase)]
    pub fn first_phase(self) -> (phase: CompassPhase)
        ensures
            phase == self.spec_first_phase(),
    {
        match self {
            CompassCommand::Init => CompassPhase::Starting { step: StartupStep::AccelControl1 },
            CompassCommand::SetAccelScale(scale) => CompassPhase::AccelScaleRead { scale },
            CompassCommand::SetAccelDataRate(rate) => CompassPhase::AccelRateRead { accel_rate: rate },
            CompassCommand::SetMagGain(gain) => CompassPhase::MagGainWrite { gain },
            CompassCommand::SetMagDataRate(rate) => CompassPhase::MagRateRead { mag_rate: rate },
            CompassCommand::AccelDataReady => CompassPhase::AccelPolling,
            CompassCommand::MagDataReady => CompassPhase::MagPolling,
            CompassCommand::ReadAcceleration => CompassPhase::AccelSampling,
            CompassCommand::ReadMagneticField => CompassPhase::MagSampling,
            CompassCommand::ReadTemperature => CompassPhase::TemperatureHigh,
        }
    }

    /// Whether the operation takes the waiting acceleration sample, or
    /// makes it stale.
    pub open spec fn spec_spends_accel_sample(self) -> bool {
        self is ReadAcceleration || self is Init
    }

    /// Whether the operation uses up the acceleration sample that was
    /// seen waiting.
    #[verifier::when_used_as_spec(spec_spends_accel_sample)]
    pub fn spends_accel_sample(self) -> (spends: bool)
        ensures
            spends == self.spec_spends_accel_sample(),
    {
        match self {
            CompassCommand::ReadAcceleration => true,
            CompassCommand::Init => true,
            _ => false,
        }
    }

    /// Whether the operation takes the waiting magnetic sample, or makes it
    /// stale.
    pub open spec fn spec_spends_mag_sample(self) -> bool {
        self is ReadMagneticField || self is Init
    }

    /// Whether the operation uses up the magnetic sample that was seen
    /// waiting.
    #[verifier::when_used_as_spec(spec_spends_mag_sample)]
    pub fn spends_mag_sample(self) -> (spends: bool)
        ensures
            spends == self.spec_spends_mag_sample(),
    {
        match self {
            CompassCommand::ReadMagneticField => true,
            CompassCommand::Init => true,
            _ => false,
        }
    }
}

impl CompassState {
    /// The driver as it is made: both devices at the settings they power up
    /// with, nothing in flight.
    pub open spec fn initial() -> CompassState {
        CompassState {
            accel_scale: AccelScale::G2,
            accel_rate: AccelDataRate::PowerDown,
            mag_gain: MagGain::Gauss1_3,
            mag_rate: MagDataRate::Hz15,
            accel_fresh: false,
            mag_fresh: false,
            phase: CompassPhase::Idle,
        }
    }

    /// No operation is in flight.
    pub open spec fn idle(self) -> bool {
        self.phase is Idle
    }

    /// The transfer whose reply the driver is waiting for.
    pub open spec fn pending(self) -> Option<Request> {
        match self.phase {
            CompassPhase::Idle => None,
            CompassPhase::Starting { step } => Some(step.request()),
            CompassPhase::AccelScaleRead { .. } => Some(
                i2c_read(ACCEL_ADDR, accel_regs::CTRL_REG4_A),
            ),
            CompassPhase::AccelScaleWrite { scale, current } => Some(
                i2c_write(
                    ACCEL_ADDR,
                    accel_regs::CTRL_REG4_A,
                    with_field(current, ACCEL_SCALE_FIELD, scale.bits()),
                ),
            ),
            CompassPhase::AccelRateRead { .. } => Some(
                i2c_read(ACCEL_ADDR, accel_regs::CTRL_REG1_A),
            ),
            CompassPhase::AccelRateWrite { accel_rate: rate, current } => Some(
                i2c_write(
                    ACCEL_ADDR,
                    accel_regs::CTRL_REG1_A,
                    with_field(current, ACCEL_RATE_FIELD, rate.bits()),
                ),
            ),
            CompassPhase::MagGainWrite { gain } => Some(
                i2c_write(MAG_ADDR, mag_regs::CRB_REG_M, gain.bits()),
            ),
            CompassPhase::MagRateRead { .. } => Some(i2c_read(MAG_ADDR, mag_regs::CRA_REG_M)),
            CompassPhase::MagRateWrite { mag_rate: rate, current } => Some(
                i2c_write(
                    MAG_ADDR,
                    mag_regs::CRA_REG_M,
                    with_field(current, MAG_RATE_FIELD, rate.bits()),
                ),
            ),
            CompassPhase::AccelPolling => Some(i2c_read(ACCEL_ADDR, accel_regs::STATUS_REG_A)),
            CompassPhase::MagPolling => Some(i2c_read(MAG_ADDR, mag_regs::SR_REG_M)),
            CompassPhase::AccelSampling => Some(
                i2c_burst(ACCEL_ADDR, accel_regs::OUT_X_L_A | ACCEL_AUTO_INCREMENT, SAMPLE_LEN),
            ),
            CompassPhase::MagSampling => Some(
                i2c_burst(MAG_ADDR, mag_regs::OUT_X_H_M, SAMPLE_LEN),
            ),
            CompassPhase::TemperatureHigh => Some(i2c_read(MAG_ADDR, mag_regs::TEMP_OUT_H_M)),
            CompassPhase::TemperatureLow { .. } => Some(
                i2c_read(MAG_ADDR, mag_regs::TEMP_OUT_L_M),
            ),
        }
    }

    /// The state once a step of the initialisation has gone through: the
    /// settings that the step wrote are in force.
    pub open spec fn started(self, step: StartupStep) -> CompassState {
        let phase = match step.next() {
            Some(next) => CompassPhase::Starting { step: next },
            None => CompassPhase::Idle,
        };
        match step {
            StartupStep::AccelControl1 => CompassState {
                accel_rate: AccelDataRate::Hz100,
                phase,
                ..self
            },
            StartupStep::AccelControl4 => CompassState {
                accel_scale: AccelScale::G2,
                phase,
                ..self
            },
            StartupStep::MagRate => CompassState { mag_rate: MagDataRate::Hz15, phase, ..self },
            StartupStep::MagGain => CompassState { mag_gain: MagGain::Gauss1_3, phase, ..self },
            _ => CompassState { phase, ..self },
        }
    }

    /// The state once the pending transfer has run to its end and brought
    /// back `data`. A setting changes here and nowhere else: when the write
    /// that puts it in force has succeeded.
    pub open spec fn proceed(self, data: Seq<u8>) -> CompassState {
        match self.phase {
            CompassPhase::Idle => self,
            CompassPhase::Starting { step } => self.started(step),
            CompassPhase::AccelScaleRead { scale } => CompassState {
                phase: CompassPhase::AccelScaleWrite { scale, current: data[0] },
                ..self
            },
            CompassPhase::AccelScaleWrite { scale, .. } => CompassState {
                accel_scale: scale,
                phase: CompassPhase::Idle,
                ..self
            },
            CompassPhase::AccelRateRead { accel_rate: rate } => CompassState {
                phase: CompassPhase::AccelRateWrite { accel_rate: rate, current: data[0] },
                ..self
            },
            CompassPhase::AccelRateWrite { accel_rate: rate, .. } => CompassState {
                accel_rate: rate,
                phase: CompassPhase::Idle,
                ..self
            },
            CompassPhase::MagGainWrite { gain } => CompassState {
                mag_gain: gain,
                phase: CompassPhase::Idle,
                ..self
            },
            CompassPhase::MagRateRead { mag_rate: rate } => CompassState {
                phase: CompassPhase::MagRateWrite { mag_rate: rate, current: data[0] },
                ..self
            },
            CompassPhase::MagRateWrite { mag_rate: rate, .. } => CompassState {
                mag_rate: rate,
                phase: CompassPhase::Idle,
                ..self
            },
            CompassPhase::AccelPolling => CompassState {
                accel_fresh: data[0] & ACCEL_STATUS_ZYXDA != 0,
                phase: CompassPhase::Idle,
                ..self
            },
            CompassPhase::MagPolling => CompassState {
                mag_fresh: data[0] & MAG_STATUS_DRDY != 0,
                phase: CompassPhase::Idle,
                ..self
            },
            CompassPhase::AccelSampling => CompassState { phase: CompassPhase::Idle, ..self },
            CompassPhase::MagSampling => CompassState { phase: CompassPhase::Idle, ..self },
            CompassPhase::TemperatureHigh => CompassState {
                phase: CompassPhase::TemperatureLow { high: data[0] },
                ..self
            },
            CompassPhase::TemperatureLow { .. } => CompassState {
                phase: CompassPhase::Idle,
                ..self
            },
        }
    }

    /// What the operation hands back if the pending transfer is its last
    /// and brings back `data`.
    pub open spec fn outcome(self, data: Seq<u8>) -> CompassOutcome {
        match self.phase {
            CompassPhase::Starting { .. } => CompassOutcome::Initialized,
            CompassPhase::AccelPolling => CompassOutcome::AccelDataReady(
                data[0] & ACCEL_STATUS_ZYXDA != 0,
            ),
            CompassPhase::MagPolling => CompassOutcome::MagDataReady(
                data[0] & MAG_STATUS_DRDY != 0,
            ),
            CompassPhase::AccelSampling => CompassOutcome::Acceleration(
                Acceleration::decode(data, self.accel_scale),
            ),
            CompassPhase::MagSampling => CompassOutcome::MagneticField(
                MagneticField::decode(data, self.mag_gain),
            ),
            CompassPhase::TemperatureLow { high } => CompassOutcome::Temperature(
                upper12(word(data[0], high)) as i16,
            ),
            _ => CompassOutcome::Configured,
        }
    }

    /// Why an operation is not started, if it is not: another one is in
    /// flight, or it reads a sample that has not been seen waiting.
    pub open spec fn refusal(self, command: CompassCommand) -> Option<DriverError> {
        if !self.idle() {
            Some(DriverError::Busy)
        } else if command is ReadAcceleration && !self.accel_fresh {
            Some(DriverError::NotReady)
        } else if command is ReadMagneticField && !self.mag_fresh {
            Some(DriverError::NotReady)
        } else {
            None
        }
    }

    /// Starting an operation. It is refused while another is in flight, and
    /// a sample is not read unless one has been seen waiting. Otherwise the
    /// operation's first transfer is asked for.
    pub open spec fn begin(self, command: CompassCommand) -> (CompassState, Step<CompassOutcome>) {
        match self.refusal(command) {
            Some(error) => (self, Step::Failed(error)),
            None => {
                let next = CompassState {
                    accel_fresh: self.accel_fresh && !command.spends_accel_sample(),
                    mag_fresh: self.mag_fresh && !command.spends_mag_sample(),
                    phase: command.first_phase(),
                    ..self
                };
                (next, Step::Perform(next.pending().unwrap()))
            },
        }
    }

    /// Taking the reply to the pending transfer. A transfer that did not
    /// run to its end ends the operation with the bus error and changes no
    /// setting. Otherwise the operation moves on: to its next transfer, or
    /// to its outcome.
    pub open spec fn advance(self, reply: Result<Seq<u8>, BusFault>) -> (
        CompassState,
        Step<CompassOutcome>,
    ) {
        match self.pending() {
            None => (self, Step::Failed(DriverError::Unexpected)),
            Some(request) => match request.accepted(reply) {
                Err(error) => (
                    CompassState { phase: CompassPhase::Idle, ..self },
                    Step::Failed(error),
                ),
                Ok(data) => {
                    let next = self.proceed(data);
                    match next.pending() {
                        Some(request) => (next, Step::Perform(request)),
                        None => (next, Step::Done(self.outcome(data))),
                    }
                },
            },
        }
    }
}

/// The driver of one LSM303DLHC. It owns what is known of the two devices;
/// only its own operations change that.
#[derive(Debug)]
pub struct LSM303DLHC {
    state: CompassState,
}

impl View for LSM303DLHC {
    type V = CompassState;

    closed spec fn view(&self) -> CompassState {
        self.state
    }
}

impl LSM303DLHC {
    /// A driver for a package that has not been configured yet.
    pub fn new() -> (compass: LSM303DLHC)
        ensures
            compass@ == CompassState::initial(),
    {
        LSM303DLHC {
            state: CompassState {
                accel_scale: AccelScale::G2,
                accel_rate: AccelDataRate::PowerDown,
                mag_gain: MagGain::Gauss1_3,
                mag_rate: MagDataRate::Hz15,
                accel_fresh: false,
                mag_fresh: false,
                phase: CompassPhase::Idle,
            },
        }
    }

    /// The accelerometer's full scale in force.
    pub fn accel_scale(&self) -> (scale: AccelScale)
        ensures
            scale == self@.accel_scale,
    {
        self.state.accel_scale
    }

    /// The accelerometer's data rate in force.
    pub fn accel_data_rate(&self) -> (rate: AccelDataRate)
        ensures
            rate == self@.accel_rate,
    {
        self.state.accel_rate
    }

    /// The magnetometer's gain in force.
    pub fn mag_gain(&self) -> (gain: MagGain)
        ensures
            gain == self@.mag_gain,
    {
        self.state.mag_gain
    }

    /// The magnetometer's data rate in force.
    pub fn mag_data_rate(&self) -> (rate: MagDataRate)
        ensures
            rate == self@.mag_rate,
    {
        self.state.mag_rate
    }

    /// Whether a new acceleration sample has been seen waiting and not been
    /// read yet.
    pub fn accel_sample_waiting(&self) -> (fresh: bool)
        ensures
            fresh == self@.accel_fresh,
    {
        self.state.accel_fresh
    }

    /// Whether a new magnetic sample has been seen waiting and not been
    /// read yet.
    pub fn mag_sample_waiting(&self) -> (fresh: bool)
        ensures
            fresh == self@.mag_fresh,
    {
        self.state.mag_fresh
    }

    /// Whether no operation is in flight.
    pub fn is_idle(&self) -> (idle: bool)
        ensures
            idle == self@.idle(),
    {
        match self.state.phase {
            CompassPhase::Idle => true,
            _ => false,
        }
    }

    /// The transfer whose reply the driver is waiting for.
    pub fn pending(&self) -> (request: Option<Request>)
        ensures
            request == self@.pending(),
    {
        match self.state.phase {
            CompassPhase::Idle => None,
            CompassPhase::Starting { step } => Some(step.request()),
            CompassPhase::AccelScaleRead { .. } => Some(
                i2c_read_register(ACCEL_ADDR, accel_regs::CTRL_REG4_A),
            ),
            CompassPhase::AccelScaleWrite { scale, current } => Some(
                i2c_write_register(
                    ACCEL_ADDR,
                    accel_regs::CTRL_REG4_A,
                    replace_field(current, ACCEL_SCALE_FIELD, scale.bits()),
                ),
            ),
            CompassPhase::AccelRateRead { .. } => Some(
                i2c_read_register(ACCEL_ADDR, accel_regs::CTRL_REG1_A),
            ),
            CompassPhase::AccelRateWrite { accel_rate: rate, current } => Some(
                i2c_write_register(
                    ACCEL_ADDR,
                    accel_regs::CTRL_REG1_A,
                    replace_field(current, ACCEL_RATE_FIELD, rate.bits()),
                ),
            ),
            CompassPhase::MagGainWrite { gain } => Some(
                i2c_write_register(MAG_ADDR, mag_regs::CRB_REG_M, gain.bits()),
            ),
            CompassPhase::MagRateRead { .. } => Some(
                i2c_read_register(MAG_ADDR, mag_regs::CRA_REG_M),
            ),
            CompassPhase::MagRateWrite { mag_rate: rate, current } => Some(
                i2c_write_register(
                    MAG_ADDR,
                    mag_regs::CRA_REG_M,
                    replace_field(current, MAG_RATE_FIELD, rate.bits()),
                ),
            ),
            CompassPhase::AccelPolling => Some(
                i2c_read_register(ACCEL_ADDR, accel_regs::STATUS_REG_A),
            ),
            CompassPhase::MagPolling => Some(i2c_read_register(MAG_ADDR, mag_regs::SR_REG_M)),
            CompassPhase::AccelSampling => Some(
                i2c_read_burst(
                    ACCEL_ADDR,
                    accel_regs::OUT_X_L_A | ACCEL_AUTO_INCREMENT,
                    SAMPLE_LEN,
                ),
            ),
            CompassPhase::MagSampling => Some(
                i2c_read_burst(MAG_ADDR, mag_regs::OUT_X_H_M, SAMPLE_LEN),
            ),
            CompassPhase::TemperatureHigh => Some(
                i2c_read_register(MAG_ADDR, mag_regs::TEMP_OUT_H_M),
            ),
            CompassPhase::TemperatureLow { .. } => Some(
                i2c_read_register(MAG_ADDR, mag_regs::TEMP_OUT_L_M),
            ),
        }
    }

    /// Starts an operation and answers with its first transfer, or with
    /// the reason why it does not start.
    pub fn start(&mut self, command: CompassCommand) -> (step: Step<CompassOutcome>)
        ensures
            (final(self)@, step) == old(self)@.begin(command),
    {
        if !self.is_idle() {
            return Step::Failed(DriverError::Busy);
        }
        match command {
            CompassCommand::ReadAcceleration => {
                if !self.state.accel_fresh {
                    return Step::Failed(DriverError::NotReady);
                }
            },
            CompassCommand::ReadMagneticField => {
                if !self.state.mag_fresh {
                    return Step::Failed(DriverError::NotReady);
                }
            },
            _ => {},
        }
        self.state.accel_fresh = self.state.accel_fresh && !command.spends_accel_sample();
        self.state.mag_fresh = self.state.mag_fresh && !command.spends_mag_sample();
        self.state.phase = command.first_phase();
        match self.pending() {
            Some(request) => Step::Perform(request),
            None => Step::Failed(DriverError::Unexpected),
        }
    }

    /// Starts the initialisation of both devices.
    pub fn init(&mut self) -> (step: Step<CompassOutcome>)
        ensures
            (final(self)@, step) == old(self)@.begin(CompassCommand::Init),
    {
        self.start(CompassCommand::Init)
    }

    /// Starts the change of the accelerometer's full-scale range: its
    /// fourth control register is read and written back with its range bits
    /// replaced.
    pub fn set_accel_scale(&mut self, scale: AccelScale) -> (step: Step<CompassOutcome>)
        ensures
            (final(self)@, step) == old(self)@.begin(CompassCommand::SetAccelScale(scale)),
    {
        self.start(CompassCommand::SetAccelScale(scale))
    }

    /// Starts the change of the accelerometer's data rate: its first
    /// control register is read and written back with its rate bits
    /// replaced.
    pub fn set_accel_data_rate(&mut self, rate: AccelDataRate) -> (step: Step<CompassOutcome>)
        ensures
            (final(self)@, step) == old(self)@.begin(CompassCommand::SetAccelDataRate(rate)),
    {
        self.start(CompassCommand::SetAccelDataRate(rate))
    }

    /// Starts the change of the magnetometer's gain: its gain register is
    /// overwritten.
    pub fn set_mag_gain(&mut self, gain: MagGain) -> (step: Step<CompassOutcome>)
        ensures
            (final(self)@, step) == old(self)@.begin(CompassCommand::SetMagGain(gain)),
    {
        self.start(CompassCommand::SetMagGain(gain))
    }

    /// Starts the change of the magnetometer's data rate: its first
    /// configuration register is read and written back with its rate bits
    /// replaced.
    pub fn set_mag_data_rate(&mut self, rate: MagDataRate) -> (step: Step<CompassOutcome>)
        ensures
            (final(self)@, step) == old(self)@.begin(CompassCommand::SetMagDataRate(rate)),
    {
        self.start(CompassCommand::SetMagDataRate(rate))
    }

    /// Starts a look at the accelerometer's status register.
    pub fn accel_data_ready(&mut self) -> (step: Step<CompassOutcome>)
        ensures
            (final(self)@, step) == old(self)@.begin(CompassCommand::AccelDataReady),
    {
        self.start(CompassCommand::AccelDataReady)
    }

    /// Starts a look at the magnetometer's status register.
    pub fn mag_data_ready(&mut self) -> (step: Step<CompassOutcome>)
        ensures
            (final(self)@, step) == old(self)@.begin(CompassCommand::MagDataReady),
    {
        self.start(CompassCommand::MagDataReady)
    }

    /// Starts the read of the waiting acceleration sample.
    pub fn read_acceleration(&mut self) -> (step: Step<CompassOutcome>)
        ensures
            (final(self)@, step) == old(self)@.begin(CompassCommand::ReadAcceleration),
    {
        self.start(CompassCommand::ReadAcceleration)
    }

    /// Starts the read of the waiting magnetic sample.
    pub fn read_magnetic_field(&mut self) -> (step: Step<CompassOutcome>)
        ensures
            (final(self)@, step) == old(self)@.begin(CompassCommand::ReadMagneticField),
    {
        self.start(CompassCommand::ReadMagneticField)
    }

    /// Starts the read of the temperature: the high register, then the low
    /// one.
    pub fn read_temperature(&mut self) -> (step: Step<CompassOutcome>)
        ensures
            (final(self)@, step) == old(self)@.begin(CompassCommand::ReadTemperature),
    {
        self.start(CompassCommand::ReadTemperature)
    }

    /// Takes the reply to the pending transfer and answers with what comes
    /// next.
    pub fn resume(&mut self, reply: Reply) -> (step: Step<CompassOutcome>)
        ensures
            (final(self)@, step) == old(self)@.advance(reply_view(reply)),
    {
        let request = match self.pending() {
            Some(request) => request,
            None => {
                return Step::Failed(DriverError::Unexpected);
            },
        };
        let data = match request.accept(reply) {
            Ok(data) => data,
            Err(error) => {
                self.state.phase = CompassPhase::Idle;
                return Step::Failed(error);
            },
        };
        let outcome = self.finish(&data);
        self.settle(&data);
        match self.pending() {
            Some(request) => Step::Perform(request),
            None => Step::Done(outcome),
        }
    }

    fn settle_startup(&mut self, step: StartupStep)
        ensures
            final(self)@ == old(self)@.started(step),
    {
        match step {
            StartupStep::AccelControl1 => {
                self.state.accel_rate = AccelDataRate::Hz100;
            },
            StartupStep::AccelControl4 => {
                self.state.accel_scale = AccelScale::G2;
            },
            StartupStep::MagRate => {
                self.state.mag_rate = MagDataRate::Hz15;
            },
            StartupStep::MagGain => {
                self.state.mag_gain = MagGain::Gauss1_3;
            },
            _ => {},
        }
        self.state.phase = match step.next() {
            Some(next) => CompassPhase::Starting { step: next },
            None => CompassPhase::Idle,
        };
    }

    fn settle(&mut self, data: &Vec<u8>)
        requires
            old(self)@.pending() matches Some(request) && data@.len() == request.reply_len(),
        ensures
            final(self)@ == old(self)@.proceed(data@),
    {
        match self.state.phase {
            CompassPhase::Idle => {},
            CompassPhase::Starting { step } => {
                self.settle_startup(step);
            },
            CompassPhase::AccelScaleRead { scale } => {
                self.state.phase = CompassPhase::AccelScaleWrite { scale, current: data[0] };
            },
            CompassPhase::AccelScaleWrite { scale, .. } => {
                self.state.accel_scale = scale;
                self.state.phase = CompassPhase::Idle;
            },
            CompassPhase::AccelRateRead { accel_rate: rate } => {
                self.state.phase = CompassPhase::AccelRateWrite { accel_rate: rate, current: data[0] };
            },
            CompassPhase::AccelRateWrite { accel_rate: rate, .. } => {
                self.state.accel_rate = rate;
                self.state.phase = CompassPhase::Idle;
            },
            CompassPhase::MagGainWrite { gain } => {
                self.state.mag_gain = gain;
                self.state.phase = CompassPhase::Idle;
            },
            CompassPhase::MagRateRead { mag_rate: rate } => {
                self.state.phase = CompassPhase::MagRateWrite { mag_rate: rate, current: data[0] };
            },
            CompassPhase::MagRateWrite { mag_rate: rate, .. } => {
                self.state.mag_rate = rate;
                self.state.phase = CompassPhase::Idle;
            },
            CompassPhase::AccelPolling => {
                self.state.accel_fresh = data[0] & ACCEL_STATUS_ZYXDA != 0;
                self.state.phase = CompassPhase::Idle;
            },
            CompassPhase::MagPolling => {
                self.state.mag_fresh = data[0] & MAG_STATUS_DRDY != 0;
                self.state.phase = CompassPhase::Idle;
            },
            CompassPhase::AccelSampling => {
                self.state.phase = CompassPhase::Idle;
            },
            CompassPhase::MagSampling => {
                self.state.phase = CompassPhase::Idle;
            },
            CompassPhase::TemperatureHigh => {
                self.state.phase = CompassPhase::TemperatureLow { high: data[0] };
            },
            CompassPhase::TemperatureLow { .. } => {
                self.state.phase = CompassPhase::Idle;
            },
        }
    }

    fn finish(&self, data: &Vec<u8>) -> (outcome: CompassOutcome)
        requires
            self@.pending() matches Some(request) && data@.len() == request.reply_len(),
        ensures
            outcome == self@.outcome(data@),
    {
        match self.state.phase {
            CompassPhase::Starting { .. } => CompassOutcome::Initialized,
            CompassPhase::AccelPolling => CompassOutcome::AccelDataReady(
                data[0] & ACCEL_STATUS_ZYXDA != 0,
            ),
            CompassPhase::MagPolling => CompassOutcome::MagDataReady(
                data[0] & MAG_STATUS_DRDY != 0,
            ),
            CompassPhase::AccelSampling => {
                let sample: [u8; 6] = [data[0], data[1], data[2], data[3], data[4], data[5]];
                assert(sample@ =~= data@);
                CompassOutcome::Acceleration(
                    Acceleration::from_registers(&sample, self.state.accel_scale),
                )
            },
            CompassPhase::MagSampling => {
                let sample: [u8; 6] = [data[0], data[1], data[2], data[3], data[4], data[5]];
                assert(sample@ =~= data@);
                CompassOutcome::MagneticField(
                    MagneticField::from_registers(&sample, self.state.mag_gain),
                )
            },
            CompassPhase::TemperatureLow { high } => CompassOutcome::Temperature(
                sample12(i16_from_be(high, data[0])),
            ),
            _ => CompassOutcome::Configured,
        }
    }
}

impl AccelScale {
    /// The code of a full-scale setting lies inside the range field.
    pub proof fn lemma_bits_in_field(self)
        ensures
            self.bits() & !ACCEL_SCALE_FIELD == 0,
            self.bits() & ACCEL_SCALE_FIELD == self.bits(),
    {
        let bits = self.bits();
        assert(bits & !0x30u8 == 0 && bits & 0x30u8 == bits) by (bit_vector)
            requires
                bits == 0x00 || bits == 0x10 || bits == 0x20 || bits == 0x30,
        ;
    }
}

impl AccelDataRate {
    /// The code of a data-rate setting lies inside the rate field.
    pub proof fn lemma_bits_in_field(self)
        ensures
            self.bits() & !ACCEL_RATE_FIELD == 0,
            self.bits() & ACCEL_RATE_FIELD == self.bits(),
    {
        let bits = self.bits();
        assert(bits & !0xF0u8 == 0 && bits & 0xF0u8 == bits) by (bit_vector)
            requires
                bits == 0x00 || bits == 0x10 || bits == 0x20 || bits == 0x30 || bits == 0x40
                    || bits == 0x50 || bits == 0x60 || bits == 0x70 || bits == 0x80 || bits
                    == 0x90,
        ;
    }
}

impl MagDataRate {
    /// The code of a data-rate setting lies inside the rate field.
    pub proof fn lemma_bits_in_field(self)
        ensures
            self.bits() & !MAG_RATE_FIELD == 0,
            self.bits() & MAG_RATE_FIELD == self.bits(),
    {
        let bits = self.bits();
        assert(bits & !0x1Cu8 == 0 && bits & 0x1Cu8 == bits) by (bit_vector)
            requires
                bits == 0x00 || bits == 0x04 || bits == 0x08 || bits == 0x0C || bits == 0x10
                    || bits == 0x14 || bits == 0x18 || bits == 0x1C,
        ;
    }
}

/// Two settings with the same code are the same setting, and no two
/// settings share a conversion factor: of full scales the sensitivity, of
/// gains the pair of sensitivities.
pub proof fn law_settings_differ(
    scale: AccelScale,
    other_scale: AccelScale,
    gain: MagGain,
    other_gain: MagGain,
)
    ensures
        scale.bits() == other_scale.bits() ==> scale == other_scale,
        scale.sensitivity() == other_scale.sensitivity() ==> scale == other_scale,
        gain.bits() == other_gain.bits() ==> gain == other_gain,
        gain.sensitivity_xy() == other_gain.sensitivity_xy() ==> gain == other_gain,
        gain.sensitivity_z() == other_gain.sensitivity_z() ==> gain == other_gain,
{
}

/// The address that starts a burst from the accelerometer: X-low with the
/// auto-increment flag set.
pub proof fn lemma_accel_burst_start()
    ensures
        accel_regs::OUT_X_L_A | ACCEL_AUTO_INCREMENT == 0xA8,
{
    assert(0x28u8 | 0x80u8 == 0xA8u8) by (bit_vector);
}

/// What the start-up values hold under the fields that the driver keeps
/// track of: ±2g and 100 Hz for the accelerometer, 15 Hz for the
/// magnetometer.
proof fn lemma_startup_fields()
    ensures
        0x57u8 & ACCEL_RATE_FIELD == AccelDataRate::Hz100.bits(),
        0x08u8 & ACCEL_SCALE_FIELD == AccelScale::G2.bits(),
        0x90u8 & MAG_RATE_FIELD == MagDataRate::Hz15.bits(),
{
    assert(0x57u8 & 0xF0u8 == 0x50 && 0x08u8 & 0x30u8 == 0x00 && 0x90u8 & 0x1Cu8 == 0x10)
        by (bit_vector);
}

/// Initialisation is one fixed sequence of transfers: the five control
/// registers of the accelerometer are written in order, the device is left
/// to settle, the three configuration registers of the magnetometer are
/// written in order, and that device is left to settle. It ends with both
/// devices at their start-up settings.
pub proof fn law_init_sequence(state: CompassState)
    requires
        state.idle(),
    ensures
        ({
            let (s0, step0) = state.begin(CompassCommand::Init);
            let (s1, step1) = s0.advance(done());
            let (s2, step2) = s1.advance(done());
            let (s3, step3) = s2.advance(done());
            let (s4, step4) = s3.advance(done());
            let (s5, step5) = s4.advance(done());
            let (s6, step6) = s5.advance(done());
            let (s7, step7) = s6.advance(done());
            let (s8, step8) = s7.advance(done());
            let (s9, step9) = s8.advance(done());
            let (s10, step10) = s9.advance(done());
            &&& step0 == Step::<CompassOutcome>::Perform(
                i2c_write(ACCEL_ADDR, accel_regs::CTRL_REG1_A, 0x57),
            )
            &&& step1 == Step::<CompassOutcome>::Perform(
                i2c_write(ACCEL_ADDR, accel_regs::CTRL_REG2_A, 0x00),
            )
            &&& step2 == Step::<CompassOutcome>::Perform(
                i2c_write(ACCEL_ADDR, accel_regs::CTRL_REG3_A, 0x00),
            )
            &&& step3 == Step::<CompassOutcome>::Perform(
                i2c_write(ACCEL_ADDR, accel_regs::CTRL_REG4_A, 0x08),
            )
            &&& step4 == Step::<CompassOutcome>::Perform(
                i2c_write(ACCEL_ADDR, accel_regs::CTRL_REG5_A, 0x00),
            )
            &&& step5 == Step::<CompassOutcome>::Perform(Request::Delay { millis: SETTLE_DELAY_MS })
            &&& step6 == Step::<CompassOutcome>::Perform(
                i2c_write(MAG_ADDR, mag_regs::CRA_REG_M, 0x90),
            )
            &&& step7 == Step::<CompassOutcome>::Perform(
                i2c_write(MAG_ADDR, mag_regs::CRB_REG_M, 0x20),
            )
            &&& step8 == Step::<CompassOutcome>::Perform(
                i2c_write(MAG_ADDR, mag_regs::MR_REG_M, 0x00),
            )
            &&& step9 == Step::<CompassOutcome>::Perform(Request::Delay { millis: SETTLE_DELAY_MS })
            &&& step10 == Step::Done(CompassOutcome::Initialized)
            &&& s10 == CompassState {
                accel_scale: AccelScale::G2,
                accel_rate: AccelDataRate::Hz100,
                mag_gain: MagGain::Gauss1_3,
                mag_rate: MagDataRate::Hz15,
                accel_fresh: false,
                mag_fresh: false,
                phase: CompassPhase::Idle,
            }
        }),
{
}

/// Changing the accelerometer's full scale is a read of its fourth control
/// register and a write of the same register. The byte written carries the
/// new range bits and, everywhere else, the bits that were read. Once the
/// write has gone through the new setting is in force, and nothing else has
/// changed.
pub proof fn law_set_accel_scale_round_trip(state: CompassState, scale: AccelScale, current: u8)
    requires
        state.idle(),
    ensures
        ({
            let (s0, step0) = state.begin(CompassCommand::SetAccelScale(scale));
            let (s1, step1) = s0.advance(data(seq![current]));
            let (s2, step2) = s1.advance(done());
            let written = with_field(current, ACCEL_SCALE_FIELD, scale.bits());
            &&& step0 == Step::<CompassOutcome>::Perform(
                i2c_read(ACCEL_ADDR, accel_regs::CTRL_REG4_A),
            )
            &&& step1 == Step::<CompassOutcome>::Perform(
                i2c_write(ACCEL_ADDR, accel_regs::CTRL_REG4_A, written),
            )
            &&& written & ACCEL_SCALE_FIELD == scale.bits()
            &&& written & !ACCEL_SCALE_FIELD == current & !ACCEL_SCALE_FIELD
            &&& step2 == Step::Done(CompassOutcome::Configured)
            &&& s2 == CompassState { accel_scale: scale, ..state }
        }),
{
    scale.lemma_bits_in_field();
    lemma_field_replaced(current, ACCEL_SCALE_FIELD, scale.bits());
}

/// Changing the accelerometer's data rate is a read of its first control
/// register and a write of the same register. The byte written carries the
/// new rate bits in its upper half and the lower half as it was read.
pub proof fn law_set_accel_data_rate_round_trip(
    state: CompassState,
    rate: AccelDataRate,
    current: u8,
)
    requires
        state.idle(),
    ensures
        ({
            let (s0, step0) = state.begin(CompassCommand::SetAccelDataRate(rate));
            let (s1, step1) = s0.advance(data(seq![current]));
            let (s2, step2) = s1.advance(done());
            let written = with_field(current, ACCEL_RATE_FIELD, rate.bits());
            &&& step0 == Step::<CompassOutcome>::Perform(
                i2c_read(ACCEL_ADDR, accel_regs::CTRL_REG1_A),
            )
            &&& step1 == Step::<CompassOutcome>::Perform(
                i2c_write(ACCEL_ADDR, accel_regs::CTRL_REG1_A, written),
            )
            &&& written & ACCEL_RATE_FIELD == rate.bits()
            &&& written & !ACCEL_RATE_FIELD == current & !ACCEL_RATE_FIELD
            &&& step2 == Step::Done(CompassOutcome::Configured)
            &&& s2 == CompassState { accel_rate: rate, ..state }
        }),
{
    rate.lemma_bits_in_field();
    lemma_field_replaced(current, ACCEL_RATE_FIELD, rate.bits());
}

/// Changing the magnetometer's gain is one write: the gain register is
/// overwritten with the code of the new gain, without a read before it,
/// since nothing else lives in that register. Once the write has gone
/// through the new gain is in force, and nothing else has changed.
pub proof fn law_set_mag_gain_overwrites(state: CompassState, gain: MagGain)
    requires
        state.idle(),
    ensures
        ({
            let (s0, step0) = state.begin(CompassCommand::SetMagGain(gain));
            let (s1, step1) = s0.advance(done());
            &&& step0 == Step::<CompassOutcome>::Perform(
                i2c_write(MAG_ADDR, mag_regs::CRB_REG_M, gain.bits()),
            )
            &&& step1 == Step::Done(CompassOutcome::Configured)
            &&& s1 == CompassState { mag_gain: gain, ..state }
        }),
{
}

/// Changing the magnetometer's data rate is a read of its first
/// configuration register and a write of the same register. The byte
/// written carries the new rate bits and, everywhere else, the bits that
/// were read, so the temperature sensor stays as it was.
pub proof fn law_set_mag_data_rate_round_trip(
    state: CompassState,
    rate: MagDataRate,
    current: u8,
)
    requires
        state.idle(),
    ensures
        ({
            let (s0, step0) = state.begin(CompassCommand::SetMagDataRate(rate));
            let (s1, step1) = s0.advance(data(seq![current]));
            let (s2, step2) = s1.advance(done());
            let written = with_field(current, MAG_RATE_FIELD, rate.bits());
            &&& step0 == Step::<CompassOutcome>::Perform(i2c_read(MAG_ADDR, mag_regs::CRA_REG_M))
            &&& step1 == Step::<CompassOutcome>::Perform(
                i2c_write(MAG_ADDR, mag_regs::CRA_REG_M, written),
            )
            &&& written & MAG_RATE_FIELD == rate.bits()
            &&& written & !MAG_RATE_FIELD == current & !MAG_RATE_FIELD
            &&& step2 == Step::Done(CompassOutcome::Configured)
            &&& s2 == CompassState { mag_rate: rate, ..state }
        }),
{
    rate.lemma_bits_in_field();
    lemma_field_replaced(current, MAG_RATE_FIELD, rate.bits());
}

/// The full scale that accelerations are converted with is the one whose
/// code was last written to the range bits of the accelerometer's fourth
/// control register. It changes only when a write of that register has gone
/// through, and then it is the setting that the written byte selects.
pub proof fn law_accel_scale_follows_register(
    state: CompassState,
    reply: Result<Seq<u8>, BusFault>,
)
    ensures
        ({
            let (next, step) = state.advance(reply);
            let wrote = state.pending() matches Some(Request::Write { value, .. })
                && state.pending() == Some(i2c_write(ACCEL_ADDR, accel_regs::CTRL_REG4_A, value))
                && !(step is Failed);
            &&& next.accel_scale != state.accel_scale ==> wrote
            &&& wrote ==> (state.pending() matches Some(Request::Write { value, .. }) && value
                & ACCEL_SCALE_FIELD == next.accel_scale.bits())
        }),
        forall|command: CompassCommand|
            (#[trigger] state.begin(command)).0.accel_scale == state.accel_scale,
{
    lemma_startup_fields();
    match state.phase {
        CompassPhase::AccelScaleWrite { scale, current } => {
            scale.lemma_bits_in_field();
            lemma_field_replaced(current, ACCEL_SCALE_FIELD, scale.bits());
        },
        _ => {},
    }
}

/// The gain that magnetic fields are converted with is the one whose code
/// was last written to the magnetometer's gain register. It changes only
/// when a write of that register has gone through, and then it is the gain
/// whose code was written.
pub proof fn law_mag_gain_follows_register(state: CompassState, reply: Result<Seq<u8>, BusFault>)
    ensures
        ({
            let (next, step) = state.advance(reply);
            let wrote = state.pending() matches Some(Request::Write { value, .. })
                && state.pending() == Some(i2c_write(MAG_ADDR, mag_regs::CRB_REG_M, value))
                && !(step is Failed);
            &&& next.mag_gain != state.mag_gain ==> wrote
            &&& wrote ==> (state.pending() matches Some(Request::Write { value, .. }) && value
                == next.mag_gain.bits())
        }),
        forall|command: CompassCommand|
            (#[trigger] state.begin(command)).0.mag_gain == state.mag_gain,
{
}

/// The data rates that the driver holds are those whose codes were last
/// written to the rate bits of the accelerometer's first control register
/// and of the magnetometer's first configuration register.
pub proof fn law_rates_follow_registers(state: CompassState, reply: Result<Seq<u8>, BusFault>)
    ensures
        ({
            let (next, step) = state.advance(reply);
            let wrote_accel = state.pending() matches Some(Request::Write { value, .. })
                && state.pending() == Some(i2c_write(ACCEL_ADDR, accel_regs::CTRL_REG1_A, value))
                && !(step is Failed);
            let wrote_mag = state.pending() matches Some(Request::Write { value, .. })
                && state.pending() == Some(i2c_write(MAG_ADDR, mag_regs::CRA_REG_M, value))
                && !(step is Failed);
            &&& next.accel_rate != state.accel_rate ==> wrote_accel
            &&& wrote_accel ==> (state.pending() matches Some(Request::Write { value, .. })
                && value & ACCEL_RATE_FIELD == next.accel_rate.bits())
            &&& next.mag_rate != state.mag_rate ==> wrote_mag
            &&& wrote_mag ==> (state.pending() matches Some(Request::Write { value, .. }) && value
                & MAG_RATE_FIELD == next.mag_rate.bits())
        }),
        forall|command: CompassCommand|
            (#[trigger] state.begin(command)).0.accel_rate == state.accel_rate && state.begin(
                command,
            ).0.mag_rate == state.mag_rate,
{
    lemma_startup_fields();
    match state.phase {
        CompassPhase::AccelRateWrite { accel_rate: rate, current } => {
            rate.lemma_bits_in_field();
            lemma_field_replaced(current, ACCEL_RATE_FIELD, rate.bits());
        },
        CompassPhase::MagRateWrite { mag_rate: rate, current } => {
            rate.lemma_bits_in_field();
            lemma_field_replaced(current, MAG_RATE_FIELD, rate.bits());
        },
        _ => {},
    }
}

/// Asking either device for new data is one read of its status register,
/// and the answer is the register's new-data bit: false as long as the
/// device has not set it, true once it has. The driver remembers the answer
/// for that device and leaves what it knows of the other one alone.
pub proof fn law_data_ready_is_status_bit(state: CompassState, status: u8)
    requires
        state.idle(),
    ensures
        ({
            let (s0, step0) = state.begin(CompassCommand::AccelDataReady);
            let (s1, step1) = s0.advance(data(seq![status]));
            let ready = status & ACCEL_STATUS_ZYXDA != 0;
            &&& step0 == Step::<CompassOutcome>::Perform(
                i2c_read(ACCEL_ADDR, accel_regs::STATUS_REG_A),
            )
            &&& step1 == Step::Done(CompassOutcome::AccelDataReady(ready))
            &&& s1 == CompassState { accel_fresh: ready, ..state }
        }),
        ({
            let (s0, step0) = state.begin(CompassCommand::MagDataReady);
            let (s1, step1) = s0.advance(data(seq![status]));
            let ready = status & MAG_STATUS_DRDY != 0;
            &&& step0 == Step::<CompassOutcome>::Perform(i2c_read(MAG_ADDR, mag_regs::SR_REG_M))
            &&& step1 == Step::Done(CompassOutcome::MagDataReady(ready))
            &&& s1 == CompassState { mag_fresh: ready, ..state }
        }),
{
}

/// No sample is read before the device has been seen to hold a new one.
/// The output registers of either device are asked for only at the start of
/// a sample read, and only by a driver that has seen that device's new-data
/// bit set since it last read a sample of it; until then the read is
/// refused and nothing goes out on the bus. The driver comes to have seen
/// the bit in one way only: by a read of that device's status register that
/// comes back with the bit set.
pub proof fn law_no_sample_before_ready(
    state: CompassState,
    command: CompassCommand,
    reply: Result<Seq<u8>, BusFault>,
)
    ensures
        state.idle() && !state.accel_fresh ==> state.begin(CompassCommand::ReadAcceleration) == (
            state,
            Step::<CompassOutcome>::Failed(DriverError::NotReady),
        ),
        state.idle() && !state.mag_fresh ==> state.begin(CompassCommand::ReadMagneticField) == (
            state,
            Step::<CompassOutcome>::Failed(DriverError::NotReady),
        ),
        state.begin(command).1 == Step::<CompassOutcome>::Perform(
            i2c_burst(ACCEL_ADDR, 0xA8, SAMPLE_LEN),
        ) ==> state.accel_fresh && command is ReadAcceleration,
        state.begin(command).1 == Step::<CompassOutcome>::Perform(
            i2c_burst(MAG_ADDR, mag_regs::OUT_X_H_M, SAMPLE_LEN),
        ) ==> state.mag_fresh && command is ReadMagneticField,
        state.advance(reply).1 != Step::<CompassOutcome>::Perform(
            i2c_burst(ACCEL_ADDR, 0xA8, SAMPLE_LEN),
        ),
        state.advance(reply).1 != Step::<CompassOutcome>::Perform(
            i2c_burst(MAG_ADDR, mag_regs::OUT_X_H_M, SAMPLE_LEN),
        ),
        state.begin(command).0.accel_fresh ==> state.accel_fresh,
        state.begin(command).0.mag_fresh ==> state.mag_fresh,
        state.begin(CompassCommand::ReadAcceleration).1 is Perform ==> !state.begin(
            CompassCommand::ReadAcceleration,
        ).0.accel_fresh,
        state.begin(CompassCommand::ReadMagneticField).1 is Perform ==> !state.begin(
            CompassCommand::ReadMagneticField,
        ).0.mag_fresh,
        state.advance(reply).0.accel_fresh && !state.accel_fresh ==> state.phase is AccelPolling
            && (reply matches Ok(bytes) && bytes.len() == 1 && bytes[0] & ACCEL_STATUS_ZYXDA
            != 0),
        state.advance(reply).0.mag_fresh && !state.mag_fresh ==> state.phase is MagPolling && (
        reply matches Ok(bytes) && bytes.len() == 1 && bytes[0] & MAG_STATUS_DRDY != 0),
{
    lemma_accel_burst_start();
}

/// An acceleration sample is six bytes read in one burst from the X-low
/// register on, with the auto-increment flag set. Each axis is its signed
/// word, low byte first, cut to its upper twelve bits, times the
/// sensitivity of the full scale in force.
pub proof fn law_acceleration_uses_scale_in_force(state: CompassState, bytes: Seq<u8>)
    requires
        state.idle(),
        state.accel_fresh,
        bytes.len() == SAMPLE_LEN,
    ensures
        ({
            let (s0, step0) = state.begin(CompassCommand::ReadAcceleration);
            let (s1, step1) = s0.advance(data(bytes));
            &&& step0 == Step::<CompassOutcome>::Perform(
                i2c_burst(ACCEL_ADDR, 0xA8, SAMPLE_LEN),
            )
            &&& step1 matches Step::Done(CompassOutcome::Acceleration(acceleration))
            &&& acceleration.x == upper12(word(bytes[0], bytes[1]))
                * state.accel_scale.sensitivity()
            &&& acceleration.y == upper12(word(bytes[2], bytes[3]))
                * state.accel_scale.sensitivity()
            &&& acceleration.z == upper12(word(bytes[4], bytes[5]))
                * state.accel_scale.sensitivity()
            &&& s1 == CompassState { accel_fresh: false, ..state }
        }),
{
    lemma_accel_burst_start();
    let sensitivity = state.accel_scale.sensitivity() as int;
    assert forall|lo: u8, hi: u8|
        -2048 * 12 <= #[trigger] upper12(word(lo, hi)) * sensitivity <= 2047 * 12 by {
        let sample = upper12(word(lo, hi));
        assert(-2048 * 12 <= sample * sensitivity <= 2047 * 12) by (nonlinear_arith)
            requires
                -2048 <= sample <= 2047,
                0 <= sensitivity <= 12,
        ;
    }
}

/// A magnetic sample is six bytes read in one burst from the X-high
/// register on, and the device keeps them in the order X, Z, Y: the first
/// pair is X, the second pair is Z, the third pair is Y. Each axis is its
/// signed word, high byte first. X and Y are divided by the X/Y
/// sensitivity of the gain in force, Z by its Z sensitivity.
pub proof fn law_magnetic_field_uses_gain_in_force(state: CompassState, bytes: Seq<u8>)
    requires
        state.idle(),
        state.mag_fresh,
        bytes.len() == SAMPLE_LEN,
    ensures
        ({
            let (s0, step0) = state.begin(CompassCommand::ReadMagneticField);
            let (s1, step1) = s0.advance(data(bytes));
            &&& step0 == Step::<CompassOutcome>::Perform(
                i2c_burst(MAG_ADDR, mag_regs::OUT_X_H_M, SAMPLE_LEN),
            )
            &&& step1 matches Step::Done(CompassOutcome::MagneticField(field))
            &&& field.x == micro_gauss(
                word(bytes[1], bytes[0]),
                state.mag_gain.sensitivity_xy() as int,
            )
            &&& field.z == micro_gauss(
                word(bytes[3], bytes[2]),
                state.mag_gain.sensitivity_z() as int,
            )
            &&& field.y == micro_gauss(
                word(bytes[5], bytes[4]),
                state.mag_gain.sensitivity_xy() as int,
            )
            &&& s1 == CompassState { mag_fresh: false, ..state }
        }),
{
    state.mag_gain.lemma_sensitivity_bounds();
    lemma_micro_gauss_bounds(word(bytes[1], bytes[0]), state.mag_gain.sensitivity_xy() as int);
    lemma_micro_gauss_bounds(word(bytes[3], bytes[2]), state.mag_gain.sensitivity_z() as int);
    lemma_micro_gauss_bounds(word(bytes[5], bytes[4]), state.mag_gain.sensitivity_xy() as int);
}

/// A change of the accelerometer's full scale changes the conversion with
/// it. Once the change has gone through, the next sample that is seen
/// waiting and read is converted with the sensitivity of the new setting,
/// whatever the setting was before.
pub proof fn law_accel_scale_change_changes_conversion(
    state: CompassState,
    scale: AccelScale,
    current: u8,
    status: u8,
    bytes: Seq<u8>,
)
    requires
        state.idle(),
        status & ACCEL_STATUS_ZYXDA != 0,
        bytes.len() == SAMPLE_LEN,
    ensures
        ({
            let s0 = state.begin(CompassCommand::SetAccelScale(scale)).0;
            let s1 = s0.advance(data(seq![current])).0;
            let s2 = s1.advance(done()).0;
            let s3 = s2.begin(CompassCommand::AccelDataReady).0;
            let s4 = s3.advance(data(seq![status])).0;
            let s5 = s4.begin(CompassCommand::ReadAcceleration).0;
            let (s6, step) = s5.advance(data(bytes));
            &&& step matches Step::Done(CompassOutcome::Acceleration(acceleration))
            &&& acceleration.x == upper12(word(bytes[0], bytes[1])) * scale.sensitivity()
            &&& acceleration.y == upper12(word(bytes[2], bytes[3])) * scale.sensitivity()
            &&& acceleration.z == upper12(word(bytes[4], bytes[5])) * scale.sensitivity()
            &&& s6.accel_scale == scale
        }),
{
    law_set_accel_scale_round_trip(state, scale, current);
    let ready = CompassState { accel_scale: scale, ..state };
    law_data_ready_is_status_bit(ready, status);
    law_acceleration_uses_scale_in_force(CompassState { accel_fresh: true, ..ready }, bytes);
}

/// A change of the magnetometer's gain changes the conversion with it.
/// Once the change has gone through, the next sample that is seen waiting
/// and read is converted with the two sensitivities of the new gain,
/// whatever the gain was before.
pub proof fn law_mag_gain_change_changes_conversion(
    state: CompassState,
    gain: MagGain,
    status: u8,
    bytes: Seq<u8>,
)
    requires
        state.idle(),
        status & MAG_STATUS_DRDY != 0,
        bytes.len() == SAMPLE_LEN,
    ensures
        ({
            let s0 = state.begin(CompassCommand::SetMagGain(gain)).0;
            let s1 = s0.advance(done()).0;
            let s2 = s1.begin(CompassCommand::MagDataReady).0;
            let s3 = s2.advance(data(seq![status])).0;
            let s4 = s3.begin(CompassCommand::ReadMagneticField).0;
            let (s5, step) = s4.advance(data(bytes));
            &&& step matches Step::Done(CompassOutcome::MagneticField(field))
            &&& field.x == micro_gauss(word(bytes[1], bytes[0]), gain.sensitivity_xy() as int)
            &&& field.z == micro_gauss(word(bytes[3], bytes[2]), gain.sensitivity_z() as int)
            &&& field.y == micro_gauss(word(bytes[5], bytes[4]), gain.sensitivity_xy() as int)
            &&& s5.mag_gain == gain
        }),
{
    law_set_mag_gain_overwrites(state, gain);
    let ready = CompassState { mag_gain: gain, ..state };
    law_data_ready_is_status_bit(ready, status);
    law_magnetic_field_uses_gain_in_force(CompassState { mag_fresh: true, ..ready }, bytes);
}

/// The temperature is read in two transfers, the high register and then
/// the low one, and is the upper twelve bits of the signed word that the
/// two bytes make.
pub proof fn law_temperature_is_upper_twelve_bits(state: CompassState, high: u8, low: u8)
    requires
        state.idle(),
    ensures
        ({
            let (s0, step0) = state.begin(CompassCommand::ReadTemperature);
            let (s1, step1) = s0.advance(data(seq![high]));
            let (s2, step2) = s1.advance(data(seq![low]));
            &&& step0 == Step::<CompassOutcome>::Perform(
                i2c_read(MAG_ADDR, mag_regs::TEMP_OUT_H_M),
            )
            &&& step1 == Step::<CompassOutcome>::Perform(
                i2c_read(MAG_ADDR, mag_regs::TEMP_OUT_L_M),
            )
            &&& step2 matches Step::Done(CompassOutcome::Temperature(reading))
            &&& reading == upper12(word(low, high))
            &&& -2048 <= reading <= 2047
            &&& s2 == state
        }),
{
}

/// A fault on the bus comes out of the driver as it went in. Whatever
/// transfer is pending, a reply that is a fault ends the operation with
/// that fault, and a reply of the wrong length ends it with a framing
/// fault. The driver is idle again and its settings are as they were.
pub proof fn law_bus_fault_surfaces(state: CompassState, reply: Result<Seq<u8>, BusFault>)
    requires
        state.pending() matches Some(request) && !(request is Delay),
    ensures
        reply matches Err(fault) ==> state.advance(reply) == (
            CompassState { phase: CompassPhase::Idle, ..state },
            Step::<CompassOutcome>::Failed(DriverError::Bus(fault)),
        ),
        reply matches Ok(bytes) ==> (bytes.len() != state.pending().unwrap().reply_len()
            ==> state.advance(reply) == (
            CompassState { phase: CompassPhase::Idle, ..state },
            Step::<CompassOutcome>::Failed(DriverError::Bus(BusFault::Framing)),
        )),
        state.advance(reply).1 is Failed <==> (reply is Err || (reply matches Ok(bytes)
            && bytes.len() != state.pending().unwrap().reply_len())),
{
}

/// One operation at a time, each run to its end. Both devices share the
/// bus, so while an operation on either is in flight every other one is
/// refused and the driver is left as it is, and a reply that no transfer is
/// waiting for is refused as well.
pub proof fn law_one_operation_at_a_time(
    state: CompassState,
    command: CompassCommand,
    reply: Result<Seq<u8>, BusFault>,
)
    ensures
        !state.idle() ==> state.begin(command) == (
            state,
            Step::<CompassOutcome>::Failed(DriverError::Busy),
        ),
        state.idle() ==> state.advance(reply) == (
            state,
            Step::<CompassOutcome>::Failed(DriverError::Unexpected),
        ),
        state.begin(command).1 matches Step::Perform(request) ==> state.begin(
            command,
        ).0.pending() == Some(request),
        state.advance(reply).1 matches Step::Perform(request) ==> state.advance(
            reply,
        ).0.pending() == Some(request),
        !(state.begin(command).1 is Perform) ==> state.begin(command).0 == state,
        !(state.advance(reply).1 is Perform) ==> state.advance(reply).0.idle(),
        !(state.begin(command).1 is Done),
{
}

} // verus!
