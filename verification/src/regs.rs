//! Slave address and register address table of the magnetometer.
//!
//! The table is fixed and known at compile time; the driver itself is
//! parameterized over the slave address so that the same protocol
//! layer can address other compatible devices.

use vstd::prelude::*;

verus! {

/// Fixed 7-bit slave address of the magnetometer.
pub const MAGNETOMETER: u8 = 0b0011_1100;

/// High byte of the legacy X output register.
pub const OUT_X_H_M: u8 = 0x03;
/// Identification register A.
pub const IRA_REG_M: u8 = 0x0A;
/// Identification register; the device answers `0x48` here.
pub const WHO_AM_I_M: u8 = 0x4F;
/// Configuration register A; mode bits live here.
pub const CFG_REG_A_M: u8 = 0x60;
/// First output register of a 6-byte X/Z/Y sample burst.
pub const OUTX_L_REG_M: u8 = 0x68;
/// First accelerometer output register.
pub const OUT_X_ACC: u8 = 0x28;

/// Value the identification register is documented to hold.
pub const WHO_AM_I_VALUE: u8 = 0x48;

/// Number of slave registers a single byte can address.
pub const REGISTER_COUNT: usize = 256;

} // verus!
