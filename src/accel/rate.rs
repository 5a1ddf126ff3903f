//! The sampling rate selected by `CTRL_REG1_A`.
use super::{AccelOdr, ControlRegister1A};
use crate::bitfield::{field_of, flag_of};
use vstd::prelude::*;

verus! {

/// The sampling rate in Hz that `odr` selects, in low-power mode when
/// `low_power` holds; `None` for the codes the device does not assign.
pub open spec fn spec_sample_rate_hz(odr: AccelOdr, low_power: bool) -> Option<u32> {
    match odr {
        AccelOdr::Disabled => Some(0),
        AccelOdr::Hz1 => Some(1),
        AccelOdr::Hz10 => Some(10),
        AccelOdr::Hz25 => Some(25),
        AccelOdr::Hz50 => Some(50),
        AccelOdr::Hz100 => Some(100),
        AccelOdr::Hz200 => Some(200),
        AccelOdr::Hz400 => Some(400),
        AccelOdr::LpHz1620 => Some(1620),
        AccelOdr::LpHz1620NormalHz5376 => if low_power {
            Some(5376)
        } else {
            Some(1344)
        },
        _ => None,
    }
}

impl ControlRegister1A {
    /// The sampling rate in Hz that this value selects; `None` where the rate
    /// code is one the device does not assign.
    pub fn sample_rate_hz(&self) -> (r: Option<u32>)
        ensures
            r == spec_sample_rate_hz(
                AccelOdr::spec_from_bits(field_of(self@, 4, 4)),
                flag_of(self@, 3),
            ),
    {
        let low_power = self.low_power_enable();
        match self.output_data_rate() {
            AccelOdr::Disabled => Some(0),
            AccelOdr::Hz1 => Some(1),
            AccelOdr::Hz10 => Some(10),
            AccelOdr::Hz25 => Some(25),
            AccelOdr::Hz50 => Some(50),
            AccelOdr::Hz100 => Some(100),
            AccelOdr::Hz200 => Some(200),
            AccelOdr::Hz400 => Some(400),
            AccelOdr::LpHz1620 => Some(1620),
            AccelOdr::LpHz1620NormalHz5376 => {
                if low_power {
                    Some(5376)
                } else {
                    Some(1344)
                }
            },
            _ => None,
        }
    }
}

} // verus!
