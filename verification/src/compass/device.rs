//! A model of the package on its bus, to say what whole operations do.
//!
//! The laws of the driver speak of one transfer at a time and hold whatever
//! comes back. Here the replies are those of a package that works: two
//! devices, each of which keeps what is written to its registers and answers
//! a read with what they hold. Against such a package an operation runs from
//! its first transfer to its outcome, and what it leaves in the registers can
//! be said outright.

use crate::bus::{i2c_burst, Bus, BusFault, DriverError, Request, Step};
use crate::compass::{accel_regs, mag_regs};
use crate::compass::{law_acceleration_uses_scale_in_force, law_magnetic_field_uses_gain_in_force};
use crate::compass::{lemma_accel_burst_start, micro_gauss};
use crate::compass::{AccelDataRate, AccelScale, MagDataRate, MagGain};
use crate::compass::{CompassCommand, CompassOutcome, CompassPhase, CompassState};
use crate::compass::{ACCEL_ADDR, ACCEL_AUTO_INCREMENT, MAG_ADDR};
use crate::compass::{ACCEL_RATE_FIELD, ACCEL_SCALE_FIELD, ACCEL_STATUS_ZYXDA};
use crate::compass::{MAG_RATE_FIELD, MAG_STATUS_DRDY, SAMPLE_LEN};
use crate::word::{lemma_field_replaced, upper12, with_field, word};
use vstd::prelude::*;

verus! {

/// The most transfers and waits that any one operation is made of.
pub const LONGEST_OPERATION: usize = 10;

/// The registers of the two devices in the package.
pub struct Package {
    pub accel: Map<u8, u8>,
    pub mag: Map<u8, u8>,
}

/// The register of the accelerometer that a transaction addresses: its
/// first byte without the auto-increment flag.
pub open spec fn accel_addressed(command: u8) -> u8 {
    command & !ACCEL_AUTO_INCREMENT
}

/// The register of the accelerometer that byte `index` of a read comes
/// from: the addressed one, or with the auto-increment flag set the one
/// that many places after it.
pub open spec fn accel_source(command: u8, index: int) -> u8 {
    if command & ACCEL_AUTO_INCREMENT != 0 {
        (accel_addressed(command) + index) as u8
    } else {
        accel_addressed(command)
    }
}

/// What a working package answers to a request. A read brings back the
/// registers of the device that is addressed; the magnetometer moves on
/// from register to register by itself, the accelerometer only if it is
/// asked to. At any other address nobody acknowledges.
pub open spec fn answer(package: Package, request: Request) -> Result<Seq<u8>, BusFault> {
    match request {
        Request::Read { bus, command, len } => if bus == (Bus::I2c { address: ACCEL_ADDR }) {
            Ok(Seq::new(len as nat, |i: int| package.accel[accel_source(command, i)]))
        } else if bus == (Bus::I2c { address: MAG_ADDR }) {
            Ok(Seq::new(len as nat, |i: int| package.mag[(command + i) as u8]))
        } else {
            Err(BusFault::NoAcknowledge)
        },
        Request::Write { bus, .. } => if bus == (Bus::I2c { address: ACCEL_ADDR }) || bus == (
        Bus::I2c { address: MAG_ADDR }) {
            Ok(Seq::empty())
        } else {
            Err(BusFault::NoAcknowledge)
        },
        Request::Delay { .. } => Ok(Seq::empty()),
    }
}

/// What the registers of a working package hold once it has taken a
/// request: a write changes the addressed register of the addressed device
/// and no other.
pub open spec fn taken(package: Package, request: Request) -> Package {
    match request {
        Request::Write { bus, command, value } => if bus == (Bus::I2c { address: ACCEL_ADDR }) {
            Package { accel: package.accel.insert(accel_addressed(command), value), ..package }
        } else if bus == (Bus::I2c { address: MAG_ADDR }) {
            Package { mag: package.mag.insert(command, value), ..package }
        } else {
            package
        },
        _ => package,
    }
}

/// Driver, package and last step once a step has been followed to the end
/// of its operation, or for `limit` requests if that comes first.
pub open spec fn follow(
    state: CompassState,
    package: Package,
    step: Step<CompassOutcome>,
    limit: nat,
) -> (CompassState, Package, Step<CompassOutcome>)
    decreases limit,
{
    if limit == 0 {
        (state, package, step)
    } else {
        match step {
            Step::Perform(request) => {
                let (next, then) = state.advance(answer(package, request));
                follow(next, taken(package, request), then, (limit - 1) as nat)
            },
            _ => (state, package, step),
        }
    }
}

/// Driver, package and outcome once an operation has been started and run
/// against a working package.
pub open spec fn operate(state: CompassState, package: Package, command: CompassCommand) -> (
    CompassState,
    Package,
    Step<CompassOutcome>,
) {
    let (next, step) = state.begin(command);
    follow(next, package, step, LONGEST_OPERATION as nat)
}

/// The driver's settings are those of the package: the range and rate
/// bits of the accelerometer, the gain register and the rate bits of the
/// magnetometer hold the codes of the settings that the driver goes by.
pub open spec fn in_step(state: CompassState, package: Package) -> bool {
    &&& package.accel[accel_regs::CTRL_REG4_A] & ACCEL_SCALE_FIELD == state.accel_scale.bits()
    &&& package.accel[accel_regs::CTRL_REG1_A] & ACCEL_RATE_FIELD == state.accel_rate.bits()
    &&& package.mag[mag_regs::CRB_REG_M] == state.mag_gain.bits()
    &&& package.mag[mag_regs::CRA_REG_M] & MAG_RATE_FIELD == state.mag_rate.bits()
}

/// A transaction for a register below 0x80 addresses that register of the
/// accelerometer, with the auto-increment flag or without.
pub proof fn lemma_accel_addressed(register: u8)
    requires
        register < 0x80,
    ensures
        accel_addressed(register) == register,
        accel_addressed(register | ACCEL_AUTO_INCREMENT) == register,
        register & ACCEL_AUTO_INCREMENT == 0,
        (register | ACCEL_AUTO_INCREMENT) & ACCEL_AUTO_INCREMENT != 0,
{
    assert(register & !0x80u8 == register && (register | 0x80) & !0x80u8 == register && register
        & 0x80 == 0 && (register | 0x80) & 0x80 != 0) by (bit_vector)
        requires
            register < 0x80,
    ;
}

/// Every register of the accelerometer that the driver touches is
/// addressed by the transactions that the driver sends for it.
proof fn lemma_accel_register_map()
    ensures
        accel_addressed(accel_regs::CTRL_REG1_A) == accel_regs::CTRL_REG1_A,
        accel_addressed(accel_regs::CTRL_REG2_A) == accel_regs::CTRL_REG2_A,
        accel_addressed(accel_regs::CTRL_REG3_A) == accel_regs::CTRL_REG3_A,
        accel_addressed(accel_regs::CTRL_REG4_A) == accel_regs::CTRL_REG4_A,
        accel_addressed(accel_regs::CTRL_REG5_A) == accel_regs::CTRL_REG5_A,
        accel_addressed(accel_regs::STATUS_REG_A) == accel_regs::STATUS_REG_A,
        accel_regs::CTRL_REG1_A & ACCEL_AUTO_INCREMENT == 0,
        accel_regs::CTRL_REG4_A & ACCEL_AUTO_INCREMENT == 0,
        accel_regs::STATUS_REG_A & ACCEL_AUTO_INCREMENT == 0,
        accel_addressed(0xA8) == accel_regs::OUT_X_L_A,
        0xA8u8 & ACCEL_AUTO_INCREMENT != 0,
{
    lemma_accel_addressed(accel_regs::CTRL_REG1_A);
    lemma_accel_addressed(accel_regs::CTRL_REG2_A);
    lemma_accel_addressed(accel_regs::CTRL_REG3_A);
    lemma_accel_addressed(accel_regs::CTRL_REG4_A);
    lemma_accel_addressed(accel_regs::CTRL_REG5_A);
    lemma_accel_addressed(accel_regs::STATUS_REG_A);
    lemma_accel_addressed(accel_regs::OUT_X_L_A);
    lemma_accel_burst_start();
}

/// Initialising a working package leaves the five control registers of the
/// accelerometer and the three configuration registers of the magnetometer
/// at their start-up values and every other register as it was, and the
/// driver at the start-up settings.
pub proof fn law_init_on_device(state: CompassState, package: Package)
    requires
        state.idle(),
    ensures
        operate(state, package, CompassCommand::Init) == (
            CompassState {
                accel_scale: AccelScale::G2,
                accel_rate: AccelDataRate::Hz100,
                mag_gain: MagGain::Gauss1_3,
                mag_rate: MagDataRate::Hz15,
                accel_fresh: false,
                mag_fresh: false,
                phase: CompassPhase::Idle,
            },
            Package {
                accel: package.accel.insert(accel_regs::CTRL_REG1_A, 0x57).insert(
                    accel_regs::CTRL_REG2_A,
                    0x00,
                ).insert(accel_regs::CTRL_REG3_A, 0x00).insert(accel_regs::CTRL_REG4_A, 0x08).insert(
                    accel_regs::CTRL_REG5_A,
                    0x00,
                ),
                mag: package.mag.insert(mag_regs::CRA_REG_M, 0x90).insert(
                    mag_regs::CRB_REG_M,
                    0x20,
                ).insert(mag_regs::MR_REG_M, 0x00),
            },
            Step::Done(CompassOutcome::Initialized),
        ),
{
    lemma_accel_register_map();
    reveal_with_fuel(follow, 11);
}

/// Setting the accelerometer's full scale on a working package changes the
/// range bits of its fourth control register to the code of the setting,
/// and nothing else: the other bits of that register, all other registers
/// and the whole magnetometer are as they were. The driver then goes by
/// the new setting.
pub proof fn law_set_accel_scale_on_device(
    state: CompassState,
    package: Package,
    scale: AccelScale,
)
    requires
        state.idle(),
    ensures
        ({
            let before = package.accel[accel_regs::CTRL_REG4_A];
            let after = with_field(before, ACCEL_SCALE_FIELD, scale.bits());
            &&& operate(state, package, CompassCommand::SetAccelScale(scale)) == (
                CompassState { accel_scale: scale, ..state },
                Package { accel: package.accel.insert(accel_regs::CTRL_REG4_A, after), ..package },
                Step::Done(CompassOutcome::Configured),
            )
            &&& after & ACCEL_SCALE_FIELD == scale.bits()
            &&& after & !ACCEL_SCALE_FIELD == before & !ACCEL_SCALE_FIELD
        }),
{
    lemma_accel_register_map();
    scale.lemma_bits_in_field();
    lemma_field_replaced(package.accel[accel_regs::CTRL_REG4_A], ACCEL_SCALE_FIELD, scale.bits());
    reveal_with_fuel(follow, 3);
}

/// Setting the accelerometer's data rate on a working package changes the
/// rate bits of its first control register to the code of the setting, and
/// nothing else. The driver then goes by the new setting.
pub proof fn law_set_accel_data_rate_on_device(
    state: CompassState,
    package: Package,
    rate: AccelDataRate,
)
    requires
        state.idle(),
    ensures
        ({
            let before = package.accel[accel_regs::CTRL_REG1_A];
            let after = with_field(before, ACCEL_RATE_FIELD, rate.bits());
            &&& operate(state, package, CompassCommand::SetAccelDataRate(rate)) == (
                CompassState { accel_rate: rate, ..state },
                Package { accel: package.accel.insert(accel_regs::CTRL_REG1_A, after), ..package },
                Step::Done(CompassOutcome::Configured),
            )
            &&& after & ACCEL_RATE_FIELD == rate.bits()
            &&& after & !ACCEL_RATE_FIELD == before & !ACCEL_RATE_FIELD
        }),
{
    lemma_accel_register_map();
    rate.lemma_bits_in_field();
    lemma_field_replaced(package.accel[accel_regs::CTRL_REG1_A], ACCEL_RATE_FIELD, rate.bits());
    reveal_with_fuel(follow, 3);
}

/// Setting the magnetometer's gain on a working package leaves the code of
/// the gain in its gain register, and changes nothing else. The driver
/// then goes by the new gain.
pub proof fn law_set_mag_gain_on_device(state: CompassState, package: Package, gain: MagGain)
    requires
        state.idle(),
    ensures
        operate(state, package, CompassCommand::SetMagGain(gain)) == (
            CompassState { mag_gain: gain, ..state },
            Package { mag: package.mag.insert(mag_regs::CRB_REG_M, gain.bits()), ..package },
            Step::Done(CompassOutcome::Configured),
        ),
{
    reveal_with_fuel(follow, 2);
}

/// Setting the magnetometer's data rate on a working package changes the
/// rate bits of its first configuration register to the code of the
/// setting, and nothing else. The driver then goes by the new setting.
pub proof fn law_set_mag_data_rate_on_device(
    state: CompassState,
    package: Package,
    rate: MagDataRate,
)
    requires
        state.idle(),
    ensures
        ({
            let before = package.mag[mag_regs::CRA_REG_M];
            let after = with_field(before, MAG_RATE_FIELD, rate.bits());
            &&& operate(state, package, CompassCommand::SetMagDataRate(rate)) == (
                CompassState { mag_rate: rate, ..state },
                Package { mag: package.mag.insert(mag_regs::CRA_REG_M, after), ..package },
                Step::Done(CompassOutcome::Configured),
            )
            &&& after & MAG_RATE_FIELD == rate.bits()
            &&& after & !MAG_RATE_FIELD == before & !MAG_RATE_FIELD
        }),
{
    rate.lemma_bits_in_field();
    lemma_field_replaced(package.mag[mag_regs::CRA_REG_M], MAG_RATE_FIELD, rate.bits());
    reveal_with_fuel(follow, 3);
}

/// Asking either device of a working package for new data writes nothing
/// and answers with the new-data bit of that device's status register.
pub proof fn law_data_ready_on_device(state: CompassState, package: Package)
    requires
        state.idle(),
    ensures
        ({
            let ready = package.accel[accel_regs::STATUS_REG_A] & ACCEL_STATUS_ZYXDA != 0;
            operate(state, package, CompassCommand::AccelDataReady) == (
                CompassState { accel_fresh: ready, ..state },
                package,
                Step::Done(CompassOutcome::AccelDataReady(ready)),
            )
        }),
        ({
            let ready = package.mag[mag_regs::SR_REG_M] & MAG_STATUS_DRDY != 0;
            operate(state, package, CompassCommand::MagDataReady) == (
                CompassState { mag_fresh: ready, ..state },
                package,
                Step::Done(CompassOutcome::MagDataReady(ready)),
            )
        }),
{
    lemma_accel_register_map();
    reveal_with_fuel(follow, 2);
}

/// Reading an acceleration sample from a working package writes nothing.
/// If a sample has been seen waiting, each axis is the upper twelve bits
/// of the word in its two output registers, low register first, times the
/// sensitivity of the full scale in force; if none has, the package is not
/// asked at all.
pub proof fn law_read_acceleration_on_device(state: CompassState, package: Package)
    requires
        state.idle(),
    ensures
        ({
            let (after, left, step) = operate(state, package, CompassCommand::ReadAcceleration);
            let held = package.accel;
            &&& left == package
            &&& !state.accel_fresh ==> after == state && step == Step::<CompassOutcome>::Failed(
                DriverError::NotReady,
            )
            &&& state.accel_fresh ==> {
                &&& after == CompassState { accel_fresh: false, ..state }
                &&& step matches Step::Done(CompassOutcome::Acceleration(acceleration))
                &&& acceleration.x == upper12(
                    word(held[accel_regs::OUT_X_L_A], held[accel_regs::OUT_X_H_A]),
                ) * state.accel_scale.sensitivity()
                &&& acceleration.y == upper12(
                    word(held[accel_regs::OUT_Y_L_A], held[accel_regs::OUT_Y_H_A]),
                ) * state.accel_scale.sensitivity()
                &&& acceleration.z == upper12(
                    word(held[accel_regs::OUT_Z_L_A], held[accel_regs::OUT_Z_H_A]),
                ) * state.accel_scale.sensitivity()
            }
        }),
{
    lemma_accel_register_map();
    reveal_with_fuel(follow, 2);
    if state.accel_fresh {
        let bytes = answer(package, i2c_burst(ACCEL_ADDR, 0xA8, SAMPLE_LEN))->Ok_0;
        assert(bytes.len() == SAMPLE_LEN);
        assert(bytes[0] == package.accel[accel_regs::OUT_X_L_A]);
        assert(bytes[1] == package.accel[accel_regs::OUT_X_H_A]);
        assert(bytes[2] == package.accel[accel_regs::OUT_Y_L_A]);
        assert(bytes[3] == package.accel[accel_regs::OUT_Y_H_A]);
        assert(bytes[4] == package.accel[accel_regs::OUT_Z_L_A]);
        assert(bytes[5] == package.accel[accel_regs::OUT_Z_H_A]);
        law_acceleration_uses_scale_in_force(state, bytes);
    }
}

/// Reading a magnetic sample from a working package writes nothing. If a
/// sample has been seen waiting, each axis is the word in its own two
/// output registers, high register first, although the registers of Z lie
/// between those of X and those of Y; X and Y are divided by the X/Y
/// sensitivity of the gain in force, Z by its Z sensitivity. If no sample
/// has been seen waiting, the package is not asked at all.
pub proof fn law_read_magnetic_field_on_device(state: CompassState, package: Package)
    requires
        state.idle(),
    ensures
        ({
            let (after, left, step) = operate(state, package, CompassCommand::ReadMagneticField);
            let held = package.mag;
            &&& left == package
            &&& !state.mag_fresh ==> after == state && step == Step::<CompassOutcome>::Failed(
                DriverError::NotReady,
            )
            &&& state.mag_fresh ==> {
                &&& after == CompassState { mag_fresh: false, ..state }
                &&& step matches Step::Done(CompassOutcome::MagneticField(field))
                &&& field.x == micro_gauss(
                    word(held[mag_regs::OUT_X_L_M], held[mag_regs::OUT_X_H_M]),
                    state.mag_gain.sensitivity_xy() as int,
                )
                &&& field.y == micro_gauss(
                    word(held[mag_regs::OUT_Y_L_M], held[mag_regs::OUT_Y_H_M]),
                    state.mag_gain.sensitivity_xy() as int,
                )
                &&& field.z == micro_gauss(
                    word(held[mag_regs::OUT_Z_L_M], held[mag_regs::OUT_Z_H_M]),
                    state.mag_gain.sensitivity_z() as int,
                )
            }
        }),
{
    reveal_with_fuel(follow, 2);
    if state.mag_fresh {
        let bytes = answer(package, i2c_burst(MAG_ADDR, mag_regs::OUT_X_H_M, SAMPLE_LEN))->Ok_0;
        assert(bytes.len() == SAMPLE_LEN);
        assert(bytes[0] == package.mag[mag_regs::OUT_X_H_M]);
        assert(bytes[1] == package.mag[mag_regs::OUT_X_L_M]);
        assert(bytes[2] == package.mag[mag_regs::OUT_Z_H_M]);
        assert(bytes[3] == package.mag[mag_regs::OUT_Z_L_M]);
        assert(bytes[4] == package.mag[mag_regs::OUT_Y_H_M]);
        assert(bytes[5] == package.mag[mag_regs::OUT_Y_L_M]);
        law_magnetic_field_uses_gain_in_force(state, bytes);
    }
}

/// Reading the temperature of a working package writes nothing and answers
/// with the upper twelve bits of the word in the magnetometer's two
/// temperature registers, high register first.
pub proof fn law_read_temperature_on_device(state: CompassState, package: Package)
    requires
        state.idle(),
    ensures
        ({
            let (after, left, step) = operate(state, package, CompassCommand::ReadTemperature);
            &&& after == state
            &&& left == package
            &&& step matches Step::Done(CompassOutcome::Temperature(reading))
            &&& reading == upper12(
                word(package.mag[mag_regs::TEMP_OUT_L_M], package.mag[mag_regs::TEMP_OUT_H_M]),
            )
        }),
{
    reveal_with_fuel(follow, 3);
}

/// Driver and package stay in step. If the registers of a working package
/// hold the codes of the settings that the driver goes by, they still do
/// after any operation, and the driver is idle again: no operation leaves
/// a conversion factor and the range or gain of its device apart.
pub proof fn law_stays_in_step(state: CompassState, package: Package, command: CompassCommand)
    requires
        state.idle(),
        in_step(state, package),
    ensures
        ({
            let (after, left, step) = operate(state, package, command);
            &&& in_step(after, left)
            &&& after.idle()
            &&& step is Done || (command is ReadAcceleration && !state.accel_fresh) || (command
                is ReadMagneticField && !state.mag_fresh)
        }),
{
    match command {
        CompassCommand::Init => {
            law_init_on_device(state, package);
            assert(0x57u8 & 0xF0u8 == 0x50 && 0x08u8 & 0x30u8 == 0x00 && 0x90u8 & 0x1Cu8 == 0x10)
                by (bit_vector);
        },
        CompassCommand::SetAccelScale(scale) => {
            law_set_accel_scale_on_device(state, package, scale);
        },
        CompassCommand::SetAccelDataRate(rate) => {
            law_set_accel_data_rate_on_device(state, package, rate);
        },
        CompassCommand::SetMagGain(gain) => {
            law_set_mag_gain_on_device(state, package, gain);
        },
        CompassCommand::SetMagDataRate(rate) => {
            law_set_mag_data_rate_on_device(state, package, rate);
        },
        CompassCommand::AccelDataReady => {
            law_data_ready_on_device(state, package);
        },
        CompassCommand::MagDataReady => {
            law_data_ready_on_device(state, package);
        },
        CompassCommand::ReadAcceleration => {
            law_read_acceleration_on_device(state, package);
        },
        CompassCommand::ReadMagneticField => {
            law_read_magnetic_field_on_device(state, package);
        },
        CompassCommand::ReadTemperature => {
            law_read_temperature_on_device(state, package);
        },
    }
}

} // verus!
