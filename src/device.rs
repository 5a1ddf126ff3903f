//! The two sub-devices and the registers they hold.
use crate::accel;
use crate::mag;
use vstd::prelude::*;

verus! {

/// One of the two sub-devices of the package.
#[derive(Clone, Copy, Debug, PartialEq, Eq, Structural)]
pub enum SubDevice {
    /// The 3-axis accelerometer.
    Accelerometer,
    /// The 3-axis magnetometer and its thermometer.
    Magnetometer,
}

impl SubDevice {
    /// The 7-bit bus address of the sub-device.
    pub open spec fn spec_device_address(&self) -> u8 {
        match self {
            SubDevice::Accelerometer => accel::DEFAULT_DEVICE_ADDRESS,
            SubDevice::Magnetometer => mag::DEFAULT_DEVICE_ADDRESS,
        }
    }

    /// Returns the 7-bit bus address of the sub-device.
    #[verifier::when_used_as_spec(spec_device_address)]
    pub fn device_address(&self) -> (r: u8)
        ensures
            r == self.spec_device_address(),
    {
        match self {
            SubDevice::Accelerometer => accel::DEFAULT_DEVICE_ADDRESS,
            SubDevice::Magnetometer => mag::DEFAULT_DEVICE_ADDRESS,
        }
    }
}

/// Any register of the package, named by its sub-device and sub-address.
#[derive(Clone, Copy, Debug, PartialEq, Eq, Structural)]
pub enum RegisterId {
    /// A register of the accelerometer.
    Accelerometer(accel::RegisterAddress),
    /// A register of the magnetometer or thermometer.
    Magnetometer(mag::RegisterAddress),
}

impl RegisterId {
    /// The sub-device that holds the register.
    pub open spec fn spec_sub_device(&self) -> SubDevice {
        match self {
            RegisterId::Accelerometer(_) => SubDevice::Accelerometer,
            RegisterId::Magnetometer(_) => SubDevice::Magnetometer,
        }
    }

    /// The sub-address of the register.
    pub open spec fn spec_register_address(&self) -> u8 {
        match self {
            RegisterId::Accelerometer(a) => a.spec_addr(),
            RegisterId::Magnetometer(a) => a.spec_addr(),
        }
    }

    /// The register may be written.
    pub open spec fn spec_is_writable(&self) -> bool {
        match self {
            RegisterId::Accelerometer(a) => a.spec_is_writable(),
            RegisterId::Magnetometer(a) => a.spec_is_writable(),
        }
    }

    /// Returns the sub-device that holds the register.
    #[verifier::when_used_as_spec(spec_sub_device)]
    pub fn sub_device(&self) -> (r: SubDevice)
        ensures
            r == self.spec_sub_device(),
    {
        match self {
            RegisterId::Accelerometer(_) => SubDevice::Accelerometer,
            RegisterId::Magnetometer(_) => SubDevice::Magnetometer,
        }
    }

    /// Returns the sub-address of the register.
    #[verifier::when_used_as_spec(spec_register_address)]
    pub fn register_address(&self) -> (r: u8)
        ensures
            r == self.spec_register_address(),
    {
        match self {
            RegisterId::Accelerometer(a) => a.addr(),
            RegisterId::Magnetometer(a) => a.addr(),
        }
    }

    /// Tells whether the register may be written.
    #[verifier::when_used_as_spec(spec_is_writable)]
    pub fn is_writable(&self) -> (r: bool)
        ensures
            r == self.spec_is_writable(),
    {
        match self {
            RegisterId::Accelerometer(a) => a.is_writable(),
            RegisterId::Magnetometer(a) => a.is_writable(),
        }
    }
}

} // verus!
