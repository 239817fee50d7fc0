//! Register addresses of the CS43L22.

use vstd::prelude::*;

verus! {

pub const ID: u8 = 0x01;

pub const POWER_CTL1: u8 = 0x02;

pub const POWER_CTL2: u8 = 0x04;

pub const CLOCKING_CTL: u8 = 0x05;

pub const INTERFACE_CTL1: u8 = 0x06;

pub const INTERFACE_CTL2: u8 = 0x07;

pub const PASSTHROUGH_A: u8 = 0x08;

pub const PASSTHROUGH_B: u8 = 0x09;

pub const ANALOG_ZC_SR: u8 = 0x0A;

pub const PLAYBACK_CTL1: u8 = 0x0D;

pub const MISC_CTL: u8 = 0x0E;

pub const PLAYBACK_CTL2: u8 = 0x0F;

pub const PASSTHROUGH_VOL_A: u8 = 0x14;

pub const PASSTHROUGH_VOL_B: u8 = 0x15;

pub const PCM_VOL_A: u8 = 0x1A;

pub const PCM_VOL_B: u8 = 0x1B;

pub const BEEP_FREQ_ON_TIME: u8 = 0x1C;

pub const BEEP_VOL_OFF_TIME: u8 = 0x1D;

pub const BEEP_TONE_CFG: u8 = 0x1E;

pub const TONE_CTL: u8 = 0x1F;

pub const MASTER_VOL_A: u8 = 0x20;

pub const MASTER_VOL_B: u8 = 0x21;

pub const HEADPHONE_VOL_A: u8 = 0x22;

pub const HEADPHONE_VOL_B: u8 = 0x23;

pub const SPEAKER_VOL_A: u8 = 0x24;

pub const SPEAKER_VOL_B: u8 = 0x25;

pub const CHANNEL_MIXER: u8 = 0x26;

pub const LIMIT_CTL1: u8 = 0x27;

pub const LIMIT_CTL2: u8 = 0x28;

pub const LIMIT_ATTACK: u8 = 0x29;

pub const STATUS: u8 = 0x2E;

pub const BATTERY_COMP: u8 = 0x2F;

pub const VP_BATTERY_LEVEL: u8 = 0x30;

pub const SPEAKER_STATUS: u8 = 0x31;

pub const CHARGE_PUMP_FREQ: u8 = 0x34;

} // verus!
