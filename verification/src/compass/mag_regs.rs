//! Register addresses of the magnetometer of the LSM303DLHC.

use vstd::prelude::*;

verus! {

pub const CRA_REG_M: u8 = 0x00;

pub const CRB_REG_M: u8 = 0x01;

pub const MR_REG_M: u8 = 0x02;

pub const OUT_X_H_M: u8 = 0x03;

pub const OUT_X_L_M: u8 = 0x04;

pub const OUT_Z_H_M: u8 = 0x05;

pub const OUT_Z_L_M: u8 = 0x06;

pub const OUT_Y_H_M: u8 = 0x07;

pub const OUT_Y_L_M: u8 = 0x08;

pub const SR_REG_M: u8 = 0x09;

pub const IRA_REG_M: u8 = 0x0A;

pub const IRB_REG_M: u8 = 0x0B;

pub const IRC_REG_M: u8 = 0x0C;

pub const TEMP_OUT_H_M: u8 = 0x31;

pub const TEMP_OUT_L_M: u8 = 0x32;

} // verus!
