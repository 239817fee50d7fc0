//! A model of the sensor on its bus, to say what whole operations do.
//!
//! The laws of the driver speak of one transfer at a time and hold whatever
//! comes back. Here the replies are those of a device that works: one that
//! keeps what is written to its registers and answers a read with what they
//! hold. Against such a device an operation runs from its first transfer to
//! its outcome, and what it leaves in the registers can be said outright.

use crate::bus::{lemma_spi_command, spi_burst};
use crate::bus::{BusFault, DriverError, Request, Step, SPI_READ};
use crate::gyro::regs;
use crate::gyro::law_sample_uses_scale_in_force;
use crate::gyro::{identity_known, DataRate, FullScale, GyroCommand, GyroOutcome};
use crate::gyro::{GyroPhase, GyroState, Power};
use crate::gyro::{DATA_RATE_FIELD, FULL_SCALE_FIELD, SAMPLE_LEN, STATUS_ZYXDA};
use crate::word::{lemma_field_replaced, signed8, with_field, word};
use vstd::prelude::*;

verus! {

/// The most transfers and waits that any one operation is made of.
pub const LONGEST_OPERATION: usize = 8;

/// The register that a frame addresses: its first byte without the read
/// flag.
pub open spec fn addressed(command: u8) -> u8 {
    command & !SPI_READ
}

/// What a working device with these registers answers to a request. A
/// read brings back the addressed register and, in a burst, the registers
/// that follow it.
pub open spec fn answer(registers: Map<u8, u8>, request: Request) -> Result<Seq<u8>, BusFault> {
    match request {
        Request::Read { command, len, .. } => Ok(
            Seq::new(len as nat, |i: int| registers[(addressed(command) + i) as u8]),
        ),
        _ => Ok(Seq::empty()),
    }
}

/// What the registers of a working device hold once it has taken a
/// request: a write changes the addressed register and no other.
pub open spec fn taken(registers: Map<u8, u8>, request: Request) -> Map<u8, u8> {
    match request {
        Request::Write { command, value, .. } => registers.insert(addressed(command), value),
        _ => registers,
    }
}

/// Driver, device and last step once a step has been followed to the end
/// of its operation, or for `limit` requests if that comes first.
pub open spec fn follow(
    state: GyroState,
    registers: Map<u8, u8>,
    step: Step<GyroOutcome>,
    limit: nat,
) -> (GyroState, Map<u8, u8>, Step<GyroOutcome>)
    decreases limit,
{
    if limit == 0 {
        (state, registers, step)
    } else {
        match step {
            Step::Perform(request) => {
                let (next, then) = state.advance(answer(registers, request));
                follow(next, taken(registers, request), then, (limit - 1) as nat)
            },
            _ => (state, registers, step),
        }
    }
}

/// Driver, device and outcome once an operation has been started and run
/// against a working device.
pub open spec fn operate(state: GyroState, registers: Map<u8, u8>, command: GyroCommand) -> (
    GyroState,
    Map<u8, u8>,
    Step<GyroOutcome>,
) {
    let (next, step) = state.begin(command);
    follow(next, registers, step, LONGEST_OPERATION as nat)
}

/// The driver's settings are those of the device: the range bits and the
/// rate bits of the control registers hold the codes of the full scale and
/// of the data rate that the driver goes by.
pub open spec fn in_step(state: GyroState, registers: Map<u8, u8>) -> bool {
    &&& registers[regs::CTRL_REG4] & FULL_SCALE_FIELD == state.scale.bits()
    &&& registers[regs::CTRL_REG1] & DATA_RATE_FIELD == state.rate.bits()
}

/// A frame for a register below 0x80 addresses that register, read or
/// write.
pub proof fn lemma_addressed(register: u8)
    requires
        register < 0x80,
    ensures
        addressed(register | SPI_READ) == register,
        addressed(register & !SPI_READ) == register,
{
    assert((register | 0x80) & !0x80u8 == register && (register & !0x80u8) & !0x80u8 == register)
        by (bit_vector)
        requires
            register < 0x80,
    ;
}

/// Every register that the driver touches is addressed by the frames that
/// the driver sends for it.
proof fn lemma_register_map()
    ensures
        addressed(regs::WHO_AM_I | SPI_READ) == regs::WHO_AM_I,
        addressed(regs::CTRL_REG1 | SPI_READ) == regs::CTRL_REG1,
        addressed(regs::CTRL_REG4 | SPI_READ) == regs::CTRL_REG4,
        addressed(regs::OUT_TEMP | SPI_READ) == regs::OUT_TEMP,
        addressed(regs::STATUS_REG | SPI_READ) == regs::STATUS_REG,
        addressed(regs::OUT_X_L | SPI_READ) == regs::OUT_X_L,
        addressed(regs::CTRL_REG1 & !SPI_READ) == regs::CTRL_REG1,
        addressed(regs::CTRL_REG2 & !SPI_READ) == regs::CTRL_REG2,
        addressed(regs::CTRL_REG3 & !SPI_READ) == regs::CTRL_REG3,
        addressed(regs::CTRL_REG4 & !SPI_READ) == regs::CTRL_REG4,
        addressed(regs::CTRL_REG5 & !SPI_READ) == regs::CTRL_REG5,
{
    lemma_addressed(regs::WHO_AM_I);
    lemma_addressed(regs::CTRL_REG1);
    lemma_addressed(regs::CTRL_REG2);
    lemma_addressed(regs::CTRL_REG3);
    lemma_addressed(regs::CTRL_REG4);
    lemma_addressed(regs::CTRL_REG5);
    lemma_addressed(regs::OUT_TEMP);
    lemma_addressed(regs::STATUS_REG);
    lemma_addressed(regs::OUT_X_L);
}

/// Initialising a working device leaves its five control registers at
/// their start-up values and every other register as it was, and the
/// driver with the device switched on at the default range and rate. The
/// identity that is handed back is what the identity register holds.
pub proof fn law_init_on_device(state: GyroState, registers: Map<u8, u8>)
    requires
        state.idle(),
    ensures
        operate(state, registers, GyroCommand::Init) == (
            GyroState {
                scale: FullScale::Dps250,
                rate: DataRate::Hz95,
                power: Power::Normal,
                fresh: false,
                phase: GyroPhase::Idle,
            },
            registers.insert(regs::CTRL_REG1, 0x0F).insert(regs::CTRL_REG2, 0x00).insert(
                regs::CTRL_REG3,
                0x00,
            ).insert(regs::CTRL_REG4, 0x00).insert(regs::CTRL_REG5, 0x00),
            Step::Done(
                GyroOutcome::Initialized {
                    identity: registers[regs::WHO_AM_I],
                    recognized: identity_known(registers[regs::WHO_AM_I]),
                },
            ),
        ),
{
    lemma_register_map();
    reveal_with_fuel(follow, 9);
}

/// Setting the full scale of a working device changes the range bits of
/// its fourth control register to the code of the setting, and nothing
/// else: the other bits of that register and all other registers are as
/// they were. The driver then goes by the new setting.
pub proof fn law_set_scale_on_device(state: GyroState, registers: Map<u8, u8>, scale: FullScale)
    requires
        state.idle(),
    ensures
        ({
            let before = registers[regs::CTRL_REG4];
            let after = with_field(before, FULL_SCALE_FIELD, scale.bits());
            &&& operate(state, registers, GyroCommand::SetScale(scale)) == (
                GyroState { scale, ..state },
                registers.insert(regs::CTRL_REG4, after),
                Step::Done(GyroOutcome::Configured),
            )
            &&& after & FULL_SCALE_FIELD == scale.bits()
            &&& after & !FULL_SCALE_FIELD == before & !FULL_SCALE_FIELD
        }),
{
    lemma_register_map();
    scale.lemma_bits_in_field();
    lemma_field_replaced(registers[regs::CTRL_REG4], FULL_SCALE_FIELD, scale.bits());
    reveal_with_fuel(follow, 3);
}

/// Setting the data rate of a working device changes the rate bits of its
/// first control register to the code of the setting, and nothing else.
/// The driver then goes by the new setting.
pub proof fn law_set_data_rate_on_device(
    state: GyroState,
    registers: Map<u8, u8>,
    rate: DataRate,
)
    requires
        state.idle(),
    ensures
        ({
            let before = registers[regs::CTRL_REG1];
            let after = with_field(before, DATA_RATE_FIELD, rate.bits());
            &&& operate(state, registers, GyroCommand::SetDataRate(rate)) == (
                GyroState { rate, ..state },
                registers.insert(regs::CTRL_REG1, after),
                Step::Done(GyroOutcome::Configured),
            )
            &&& after & DATA_RATE_FIELD == rate.bits()
            &&& after & !DATA_RATE_FIELD == before & !DATA_RATE_FIELD
        }),
{
    lemma_register_map();
    rate.lemma_bits_in_field();
    lemma_field_replaced(registers[regs::CTRL_REG1], DATA_RATE_FIELD, rate.bits());
    reveal_with_fuel(follow, 3);
}

/// Asking a working device for new data writes nothing and answers with
/// the data-available bit of its status register.
pub proof fn law_data_ready_on_device(state: GyroState, registers: Map<u8, u8>)
    requires
        state.idle(),
    ensures
        ({
            let ready = registers[regs::STATUS_REG] & STATUS_ZYXDA != 0;
            operate(state, registers, GyroCommand::DataReady) == (
                GyroState { fresh: ready, ..state },
                registers,
                Step::Done(GyroOutcome::DataReady(ready)),
            )
        }),
{
    lemma_register_map();
    reveal_with_fuel(follow, 2);
}

/// Reading a sample from a working device writes nothing. If a sample has
/// been seen waiting, each axis is the word in its two output registers,
/// low register first, times the sensitivity of the full scale in force;
/// if none has, the device is not asked at all.
pub proof fn law_read_angular_rate_on_device(state: GyroState, registers: Map<u8, u8>)
    requires
        state.idle(),
    ensures
        ({
            let (after, left, step) = operate(state, registers, GyroCommand::ReadAngularRate);
            &&& left == registers
            &&& !state.fresh ==> after == state && step == Step::<GyroOutcome>::Failed(
                DriverError::NotReady,
            )
            &&& state.fresh ==> {
                &&& after == GyroState { fresh: false, ..state }
                &&& step matches Step::Done(GyroOutcome::AngularRate(rate))
                &&& rate.x == word(registers[regs::OUT_X_L], registers[regs::OUT_X_H])
                    * state.scale.sensitivity()
                &&& rate.y == word(registers[regs::OUT_Y_L], registers[regs::OUT_Y_H])
                    * state.scale.sensitivity()
                &&& rate.z == word(registers[regs::OUT_Z_L], registers[regs::OUT_Z_H])
                    * state.scale.sensitivity()
            }
        }),
{
    lemma_register_map();
    lemma_spi_command(regs::OUT_X_L, 0, SAMPLE_LEN);
    reveal_with_fuel(follow, 2);
    if state.fresh {
        let bytes = answer(registers, spi_burst(regs::OUT_X_L, SAMPLE_LEN))->Ok_0;
        assert(bytes.len() == SAMPLE_LEN);
        assert(bytes[0] == registers[regs::OUT_X_L]);
        assert(bytes[1] == registers[regs::OUT_X_H]);
        assert(bytes[2] == registers[regs::OUT_Y_L]);
        assert(bytes[3] == registers[regs::OUT_Y_H]);
        assert(bytes[4] == registers[regs::OUT_Z_L]);
        assert(bytes[5] == registers[regs::OUT_Z_H]);
        law_sample_uses_scale_in_force(state, bytes);
    }
}

/// Reading the temperature of a working device writes nothing and answers
/// with its temperature register as a signed byte.
pub proof fn law_read_temperature_on_device(state: GyroState, registers: Map<u8, u8>)
    requires
        state.idle(),
    ensures
        ({
            let (after, left, step) = operate(state, registers, GyroCommand::ReadTemperature);
            &&& after == state
            &&& left == registers
            &&& step matches Step::Done(GyroOutcome::Temperature(degrees))
            &&& degrees == signed8(registers[regs::OUT_TEMP] as int)
        }),
{
    lemma_register_map();
    reveal_with_fuel(follow, 2);
}

/// Driver and device stay in step. If the range bits and the rate bits of
/// a working device hold the codes of the settings that the driver goes
/// by, they still do after any operation, and the driver is idle again: no
/// operation leaves the conversion factor and the device's range apart.
pub proof fn law_stays_in_step(state: GyroState, registers: Map<u8, u8>, command: GyroCommand)
    requires
        state.idle(),
        in_step(state, registers),
    ensures
        ({
            let (after, left, step) = operate(state, registers, command);
            &&& in_step(after, left)
            &&& after.idle()
            &&& step is Done || (command is ReadAngularRate && !state.fresh)
        }),
{
    match command {
        GyroCommand::Init => {
            law_init_on_device(state, registers);
            assert(0x00u8 & 0x30u8 == 0 && 0x0Fu8 & 0xF0u8 == 0) by (bit_vector);
        },
        GyroCommand::SetScale(scale) => {
            law_set_scale_on_device(state, registers, scale);
        },
        GyroCommand::SetDataRate(rate) => {
            law_set_data_rate_on_device(state, registers, rate);
        },
        GyroCommand::DataReady => {
            law_data_ready_on_device(state, registers);
        },
        GyroCommand::ReadAngularRate => {
            law_read_angular_rate_on_device(state, registers);
        },
        GyroCommand::ReadTemperature => {
            law_read_temperature_on_device(state, registers);
        },
    }
}

} // verus!
