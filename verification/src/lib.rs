//! Drivers for the sensors and audio devices of the STM32F411E Discovery
//! board, with the bus left out.
//!
//! A driver here holds what is known of its device and decides what goes
//! over the bus; it never performs a transfer. It hands out each transfer
//! as a [`bus::Request`] and takes what came of it as a [`bus::Reply`], so
//! it runs the same on the board, where the caller owns the peripherals, and
//! against a scripted bus on a desk.
//!
//! - [`bus`]: how a register access is framed on SPI and on I2C
//! - [`word`]: how register bytes are read as numbers
//! - [`gyro`]: L3GD20 three-axis angular-rate sensor
//! - [`compass`]: LSM303DLHC accelerometer and magnetometer
//! - [`audio`]: CS43L22 audio DAC, control side
//! - [`microphone`]: MP45DT02 MEMS microphone

pub mod audio;
pub mod bus;
pub mod compass;
pub mod gyro;
pub mod microphone;
pub mod word;
