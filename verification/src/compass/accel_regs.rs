//! Register addresses of the accelerometer of the LSM303DLHC.

use vstd::prelude::*;

verus! {

pub const CTRL_REG1_A: u8 = 0x20;

pub const CTRL_REG2_A: u8 = 0x21;

pub const CTRL_REG3_A: u8 = 0x22;

pub const CTRL_REG4_A: u8 = 0x23;

pub const CTRL_REG5_A: u8 = 0x24;

pub const CTRL_REG6_A: u8 = 0x25;

pub const REFERENCE_A: u8 = 0x26;

pub const STATUS_REG_A: u8 = 0x27;

pub const OUT_X_L_A: u8 = 0x28;

pub const OUT_X_H_A: u8 = 0x29;

pub const OUT_Y_L_A: u8 = 0x2A;

pub const OUT_Y_H_A: u8 = 0x2B;

pub const OUT_Z_L_A: u8 = 0x2C;

pub const OUT_Z_H_A: u8 = 0x2D;

} // verus!
