//! CS43L22 audio DAC: the control side, over the I2C bus.
//!
//! None of the operations of this device depends on what the device answers,
//! so each one is a fixed list of transfers that the caller performs in
//! order. The reset line and the audio stream itself are not driven here.

use crate::bus::{i2c_read, i2c_write};
use crate::bus::{i2c_read_register, i2c_write_register};
use crate::bus::Request;
use vstd::prelude::*;

pub mod regs;

verus! {

/// 7-bit bus address of the DAC.
pub const CS43L22_ADDR: u8 = 0x4A;

/// What the identity register of a CS43L22 holds.
pub const CHIP_ID: u8 = 0xE0;

/// How long the reset line is held low, and how long the device is given
/// after it is released, in milliseconds.
pub const RESET_DELAY_MS: u32 = 10;

/// How long the supply rails take to settle after power-on, in
/// milliseconds.
pub const POWER_ON_DELAY_MS: u32 = 100;

/// The volume that the driver starts out with, in percent.
pub const DEFAULT_VOLUME: u8 = 70;

/// The volume and off time of a beep: medium volume.
pub const BEEP_VOLUME: u8 = 0x06;

/// What the tone configuration register holds while a beep sounds.
pub const BEEP_ON: u8 = 0xC0;

/// Output device selection.
///
/// The DAC drives both a headphone jack and a speaker. In automatic mode it
/// picks the output by what is plugged in.
#[derive(Debug, Clone, Copy, PartialEq, Eq, Structural)]
pub enum OutputDevice {
    /// Selected by jack detection
    Auto,
    /// The speaker only
    Speaker,
    /// The headphone jack only
    Headphone,
    /// Both at once
    Both,
}

impl OutputDevice {
    /// What the second power control register holds for this selection.
    pub open spec fn spec_power_control(self) -> u8 {
        match self {
            OutputDevice::Auto => 0x00,
            OutputDevice::Speaker => 0xFA,
            OutputDevice::Headphone => 0xAF,
            OutputDevice::Both => 0xAA,
        }
    }

    /// The byte to write to the second power control register.
    #[verifier::when_used_as_spec(spec_power_control)]
    pub fn power_control(self) -> (value: u8)
        ensures
            value == self.spec_power_control(),
    {
        match self {
            OutputDevice::Auto => 0x00,
            OutputDevice::Speaker => 0xFA,
            OutputDevice::Headphone => 0xAF,
            OutputDevice::Both => 0xAA,
        }
    }
}

/// Volume level in percent.
#[derive(Debug, Clone, Copy, PartialEq, Eq, Structural)]
pub struct Volume(pub u8);

impl Volume {
    /// What the master volume registers hold for this level: the level
    /// scaled from 0..=100 to 0..=255, rounded down. A level above 100,
    /// which [`Volume::new`] never makes, wraps at a byte.
    pub open spec fn dac_value(self) -> u8 {
        ((self.0 * 255 / 100) % 256) as u8
    }

    /// A volume level, cut to 100 percent.
    pub fn new(level: u8) -> (volume: Volume)
        ensures
            volume.0 == if level <= 100 {
                level
            } else {
                100
            },
    {
        if level <= 100 {
            Volume(level)
        } else {
            Volume(100)
        }
    }

    /// Converts the level to what the master volume registers hold.
    pub fn to_dac_value(&self) -> (value: u8)
        ensures
            value == self.dac_value(),
            self.0 <= 100 ==> value == self.0 * 255 / 100,
    {
        let scaled: u16 = (self.0 as u16 * 255) / 100;
        assert(scaled as u8 == scaled % 256) by (bit_vector);
        #[verifier::truncate]
        (scaled as u8)
    }
}

/// What the driver knows of the DAC.
#[derive(Debug, Clone, Copy, PartialEq, Eq, Structural)]
pub struct CodecState {
    pub output: OutputDevice,
    pub volume: Volume,
}

/// The write of one register of the DAC.
pub open spec fn write(register: u8, value: u8) -> Request {
    i2c_write(CS43L22_ADDR, register, value)
}

/// The driver of one CS43L22.
#[derive(Debug)]
pub struct CS43L22 {
    state: CodecState,
}

impl View for CS43L22 {
    type V = CodecState;

    closed spec fn view(&self) -> CodecState {
        self.state
    }
}

impl CS43L22 {
    /// A driver for a DAC that has just been reset: output selected
    /// automatically, volume at [`DEFAULT_VOLUME`].
    pub fn new() -> (dac: CS43L22)
        ensures
            dac@ == (CodecState { output: OutputDevice::Auto, volume: Volume(DEFAULT_VOLUME) }),
    {
        CS43L22 {
            state: CodecState { output: OutputDevice::Auto, volume: Volume::new(DEFAULT_VOLUME) },
        }
    }

    /// The output selected.
    pub fn output(&self) -> (output: OutputDevice)
        ensures
            output == self@.output,
    {
        self.state.output
    }

    /// The volume set.
    pub fn volume(&self) -> (volume: Volume)
        ensures
            volume == self@.volume,
    {
        self.state.volume
    }

    /// The transfers that initialise the DAC: the identity register is
    /// read, then the device is held powered down while its clocking is
    /// set to auto-detect, its audio interface to slave mode with 16-bit
    /// I2S data, its master volume to the volume set, and its
    /// zero-crossing and soft ramp to off.
    pub fn init(&self) -> (requests: Vec<Request>)
        ensures
            requests@ == seq![
                i2c_read(CS43L22_ADDR, regs::ID),
                write(regs::POWER_CTL1, 0x01),
                write(regs::CLOCKING_CTL, 0x80),
                write(regs::INTERFACE_CTL1, 0x04),
                write(regs::MASTER_VOL_A, self@.volume.dac_value()),
                write(regs::MASTER_VOL_B, self@.volume.dac_value()),
                write(regs::ANALOG_ZC_SR, 0x00),
            ],
    {
        let volume: u8 = self.state.volume.to_dac_value();
        let mut requests: Vec<Request> = Vec::new();
        requests.push(i2c_read_register(CS43L22_ADDR, regs::ID));
        requests.push(i2c_write_register(CS43L22_ADDR, regs::POWER_CTL1, 0x01));
        requests.push(i2c_write_register(CS43L22_ADDR, regs::CLOCKING_CTL, 0x80));
        requests.push(i2c_write_register(CS43L22_ADDR, regs::INTERFACE_CTL1, 0x04));
        requests.push(i2c_write_register(CS43L22_ADDR, regs::MASTER_VOL_A, volume));
        requests.push(i2c_write_register(CS43L22_ADDR, regs::MASTER_VOL_B, volume));
        requests.push(i2c_write_register(CS43L22_ADDR, regs::ANALOG_ZC_SR, 0x00));
        requests
    }

    /// The transfers that power the DAC on, and the wait for its rails.
    pub fn power_on(&mut self) -> (requests: Vec<Request>)
        ensures
            final(self)@ == old(self)@,
            requests@ == seq![
                write(regs::POWER_CTL1, 0x9E),
                Request::Delay { millis: POWER_ON_DELAY_MS },
            ],
    {
        let mut requests: Vec<Request> = Vec::new();
        requests.push(i2c_write_register(CS43L22_ADDR, regs::POWER_CTL1, 0x9E));
        requests.push(Request::Delay { millis: POWER_ON_DELAY_MS });
        requests
    }

    /// The transfer that powers the DAC down.
    pub fn power_off(&mut self) -> (requests: Vec<Request>)
        ensures
            final(self)@ == old(self)@,
            requests@ == seq![write(regs::POWER_CTL1, 0x01)],
    {
        let mut requests: Vec<Request> = Vec::new();
        requests.push(i2c_write_register(CS43L22_ADDR, regs::POWER_CTL1, 0x01));
        requests
    }

    /// Selects the output and gives the transfer that puts the selection
    /// in force.
    pub fn set_output(&mut self, output: OutputDevice) -> (requests: Vec<Request>)
        ensures
            final(self)@ == (CodecState { output, ..old(self)@ }),
            requests@ == seq![write(regs::POWER_CTL2, output.power_control())],
    {
        self.state.output = output;
        let mut requests: Vec<Request> = Vec::new();
        requests.push(i2c_write_register(CS43L22_ADDR, regs::POWER_CTL2, output.power_control()));
        requests
    }

    /// Sets the volume and gives the transfers that put it in force on
    /// both channels.
    pub fn set_volume(&mut self, volume: Volume) -> (requests: Vec<Request>)
        ensures
            final(self)@ == (CodecState { volume, ..old(self)@ }),
            requests@ == seq![
                write(regs::MASTER_VOL_A, volume.dac_value()),
                write(regs::MASTER_VOL_B, volume.dac_value()),
            ],
    {
        self.state.volume = volume;
        let value: u8 = volume.to_dac_value();
        let mut requests: Vec<Request> = Vec::new();
        requests.push(i2c_write_register(CS43L22_ADDR, regs::MASTER_VOL_A, value));
        requests.push(i2c_write_register(CS43L22_ADDR, regs::MASTER_VOL_B, value));
        requests
    }

    /// The transfers that silence both channels. The volume set is kept.
    pub fn mute(&mut self) -> (requests: Vec<Request>)
        ensures
            final(self)@ == old(self)@,
            requests@ == seq![write(regs::MASTER_VOL_A, 0x00), write(regs::MASTER_VOL_B, 0x00)],
    {
        let mut requests: Vec<Request> = Vec::new();
        requests.push(i2c_write_register(CS43L22_ADDR, regs::MASTER_VOL_A, 0x00));
        requests.push(i2c_write_register(CS43L22_ADDR, regs::MASTER_VOL_B, 0x00));
        requests
    }

    /// The transfers that bring both channels back to the volume set.
    pub fn unmute(&mut self) -> (requests: Vec<Request>)
        ensures
            final(self)@ == old(self)@,
            requests@ == seq![
                write(regs::MASTER_VOL_A, old(self)@.volume.dac_value()),
                write(regs::MASTER_VOL_B, old(self)@.volume.dac_value()),
            ],
    {
        let value: u8 = self.state.volume.to_dac_value();
        let mut requests: Vec<Request> = Vec::new();
        requests.push(i2c_write_register(CS43L22_ADDR, regs::MASTER_VOL_A, value));
        requests.push(i2c_write_register(CS43L22_ADDR, regs::MASTER_VOL_B, value));
        requests
    }

    /// The transfers that sound the tone generator for `duration_ms`
    /// milliseconds: frequency and volume are set, the tone is switched
    /// on, and after the wait it is switched off again.
    pub fn beep(&mut self, frequency: u8, duration_ms: u16) -> (requests: Vec<Request>)
        ensures
            final(self)@ == old(self)@,
            requests@ == seq![
                write(regs::BEEP_FREQ_ON_TIME, frequency),
                write(regs::BEEP_VOL_OFF_TIME, BEEP_VOLUME),
                write(regs::BEEP_TONE_CFG, BEEP_ON),
                Request::Delay { millis: duration_ms as u32 },
                write(regs::BEEP_TONE_CFG, 0x00),
            ],
    {
        let mut requests: Vec<Request> = Vec::new();
        requests.push(i2c_write_register(CS43L22_ADDR, regs::BEEP_FREQ_ON_TIME, frequency));
        requests.push(i2c_write_register(CS43L22_ADDR, regs::BEEP_VOL_OFF_TIME, BEEP_VOLUME));
        requests.push(i2c_write_register(CS43L22_ADDR, regs::BEEP_TONE_CFG, BEEP_ON));
        requests.push(Request::Delay { millis: duration_ms as u32 });
        requests.push(i2c_write_register(CS43L22_ADDR, regs::BEEP_TONE_CFG, 0x00));
        requests
    }
}

/// Silence is 0 and full volume is 255, and of two levels the louder one
/// never gets the smaller register value.
pub proof fn law_louder_is_never_lower(quieter: Volume, louder: Volume)
    requires
        quieter.0 <= louder.0 <= 100,
    ensures
        Volume(0).dac_value() == 0,
        Volume(100).dac_value() == 255,
        quieter.dac_value() <= louder.dac_value(),
{
}

} // verus!
