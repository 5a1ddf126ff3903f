//! The registers under the short names of the datasheet's register map.
//!
//! These are the same types as in [`crate::accel`] and [`crate::mag`].
use crate::accel;
use crate::mag;
use vstd::prelude::*;

verus! {

/// Register sub-addresses of the accelerometer.
pub type AccelerometerRegister = accel::RegisterAddress;

/// Register sub-addresses of the magnetometer and thermometer.
pub type MagnetometerRegister = mag::RegisterAddress;

/// `CRA_REG_M`, see [`mag::ConfigurationARegisterM`].
pub type CraRegisterM = mag::ConfigurationARegisterM;

/// `CRB_REG_M`, see [`mag::ConfigurationBRegisterM`].
pub type CrbRegisterM = mag::ConfigurationBRegisterM;

/// `IRA_REG_M`, see [`mag::IdentificationARegisterM`].
pub type IRARegisterM = mag::IdentificationARegisterM;

/// `IRB_REG_M`, see [`mag::IdentificationBRegisterM`].
pub type IRBRegisterM = mag::IdentificationBRegisterM;

/// `IRC_REG_M`, see [`mag::IdentificationCRegisterM`].
pub type IRCRegisterM = mag::IdentificationCRegisterM;

} // verus!
