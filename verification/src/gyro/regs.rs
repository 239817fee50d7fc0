//! Register addresses of the L3GD20.

use vstd::prelude::*;

verus! {

pub const WHO_AM_I: u8 = 0x0F;

pub const CTRL_REG1: u8 = 0x20;

pub const CTRL_REG2: u8 = 0x21;

pub const CTRL_REG3: u8 = 0x22;

pub const CTRL_REG4: u8 = 0x23;

pub const CTRL_REG5: u8 = 0x24;

pub const REFERENCE: u8 = 0x25;

pub const OUT_TEMP: u8 = 0x26;

pub const STATUS_REG: u8 = 0x27;

pub const OUT_X_L: u8 = 0x28;

pub const OUT_X_H: u8 = 0x29;

pub const OUT_Y_L: u8 = 0x2A;

pub const OUT_Y_H: u8 = 0x2B;

pub const OUT_Z_L: u8 = 0x2C;

pub const OUT_Z_H: u8 = 0x2D;

} // verus!
