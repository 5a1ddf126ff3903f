//! # STMicroelectronics LSM303DLHC e-compass registers
//!
//! A typed map of the I2C registers of the LSM303DLHC, a package of a 3-axis
//! accelerometer and a 3-axis magnetometer with a thermometer, and a small
//! transaction layer over a byte-oriented bus.
//!
//! - [`bitfield`]: reading and writing bit-fields of a register byte, with the
//!   laws that make every register's accessors correct.
//! - [`accel`], [`mag`]: the register catalog of each sub-device. Every
//!   register type stores its byte, reserved bits included; its enumerated
//!   fields cover all bit patterns of their width.
//! - [`register`]: the [`Register`] trait shared by all register types, and
//!   [`WritableRegister`], which only the read-write ones implement.
//! - [`transaction`]: reads, writes, read-modify-writes and burst reads
//!   through a caller-supplied [`transaction::Bus`].
//! - [`conversion`]: signed 16-bit readings from pairs of register bytes.
//! - [`device`]: the two sub-devices and a run-time name for any register.
//! - [`registers`]: the datasheet's short names for some of the types.

pub mod accel;
pub mod bitfield;
pub mod conversion;
pub mod device;
pub mod mag;
pub mod register;
pub mod registers;
pub mod transaction;

pub use register::{Register, WritableRegister};
