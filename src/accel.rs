//! Accelerometer registers.
mod conversions;
mod rate;
mod types;

pub use types::{AccelOdr, FifoMode, HighpassFilterMode, Sensitivity};

use crate::bitfield::{
    field_of, flag_bits, flag_of, get_field, get_flag, put_field, put_flag, with_field, InvalidField,
};
use crate::register::{Register, WritableRegister};
use vstd::prelude::*;

verus! {

/// The 7-bit bus address of the accelerometer, `0011001b`.
///
/// A read issues a repeated start after the sub-address. When bit 7 of the
/// sub-address is set, the device increments the sub-address after each byte,
/// so that several registers are read in one transfer.
pub const DEFAULT_DEVICE_ADDRESS: u8 = 0b0011001;

/// Register sub-addresses of the accelerometer.
///
/// See also [`DEFAULT_DEVICE_ADDRESS`].
#[allow(non_camel_case_types)]
#[derive(Clone, Copy, Debug, PartialEq, Eq, Structural)]
pub enum RegisterAddress {
    /// See [`ControlRegister1A`] (20h).
    CTRL_REG1_A,
    /// See [`ControlRegister2A`] (21h).
    CTRL_REG2_A,
    /// See [`ControlRegister3A`] (22h).
    CTRL_REG3_A,
    /// See [`ControlRegister4A`] (23h).
    CTRL_REG4_A,
    /// See [`ControlRegister5A`] (24h).
    CTRL_REG5_A,
    /// See [`ControlRegister6A`] (25h).
    CTRL_REG6_A,
    /// See [`ReferenceRegisterA`] (26h).
    REFERENCE_A,
    /// See [`StatusRegisterA`] (27h).
    STATUS_REG_A,
    /// See [`OutXLowA`] (28h).
    OUT_X_L_A,
    /// See [`OutXHighA`] (29h).
    OUT_X_H_A,
    /// See [`OutYLowA`] (2Ah).
    OUT_Y_L_A,
    /// See [`OutYHighA`] (2Bh).
    OUT_Y_H_A,
    /// See [`OutZLowA`] (2Ch).
    OUT_Z_L_A,
    /// See [`OutZHighA`] (2Dh).
    OUT_Z_H_A,
    /// See [`FifoControlRegisterA`] (2Eh).
    FIFO_CTRL_REG_A,
    /// See [`FifoSourceRegisterA`] (2Fh).
    FIFO_SRC_REG_A,
    /// See [`Int1ConfigurationRegisterA`] (30h).
    INT1_CFG_A,
    /// See [`Int1SourceRegisterA`] (31h).
    INT1_SRC_A,
    /// See [`Int1ThresholdRegisterA`] (32h).
    INT1_THS_A,
    /// See [`Int1DurationRegisterA`] (33h).
    INT1_DURATION_A,
    /// See [`Int2ConfigurationRegisterA`] (34h).
    INT2_CFG_A,
    /// See [`Int2SourceRegisterA`] (35h).
    INT2_SRC_A,
    /// See [`Int2ThresholdRegisterA`] (36h).
    INT2_THS_A,
    /// See [`Int2DurationRegisterA`] (37h).
    INT2_DURATION_A,
    /// See [`ClickConfigurationRegisterA`] (38h).
    CLICK_CFG_A,
    /// See [`ClickSourceRegisterA`] (39h).
    CLICK_SRC_A,
    /// See [`ClickThresholdRegisterA`] (3Ah).
    CLICK_THS_A,
    /// See [`ClickTimeLimitRegisterA`] (3Bh).
    TIME_LIMIT_A,
    /// See [`ClickTimeLatencyRegisterA`] (3Ch).
    TIME_LATENCY_A,
    /// See [`ClickTimeWindowRegisterA`] (3Dh).
    TIME_WINDOW_A,
}

impl RegisterAddress {
    /// The sub-address of a register.
    pub open spec fn spec_addr(&self) -> u8 {
        match self {
            RegisterAddress::CTRL_REG1_A => 0x20,
            RegisterAddress::CTRL_REG2_A => 0x21,
            RegisterAddress::CTRL_REG3_A => 0x22,
            RegisterAddress::CTRL_REG4_A => 0x23,
            RegisterAddress::CTRL_REG5_A => 0x24,
            RegisterAddress::CTRL_REG6_A => 0x25,
            RegisterAddress::REFERENCE_A => 0x26,
            RegisterAddress::STATUS_REG_A => 0x27,
            RegisterAddress::OUT_X_L_A => 0x28,
            RegisterAddress::OUT_X_H_A => 0x29,
            RegisterAddress::OUT_Y_L_A => 0x2A,
            RegisterAddress::OUT_Y_H_A => 0x2B,
            RegisterAddress::OUT_Z_L_A => 0x2C,
            RegisterAddress::OUT_Z_H_A => 0x2D,
            RegisterAddress::FIFO_CTRL_REG_A => 0x2E,
            RegisterAddress::FIFO_SRC_REG_A => 0x2F,
            RegisterAddress::INT1_CFG_A => 0x30,
            RegisterAddress::INT1_SRC_A => 0x31,
            RegisterAddress::INT1_THS_A => 0x32,
            RegisterAddress::INT1_DURATION_A => 0x33,
            RegisterAddress::INT2_CFG_A => 0x34,
            RegisterAddress::INT2_SRC_A => 0x35,
            RegisterAddress::INT2_THS_A => 0x36,
            RegisterAddress::INT2_DURATION_A => 0x37,
            RegisterAddress::CLICK_CFG_A => 0x38,
            RegisterAddress::CLICK_SRC_A => 0x39,
            RegisterAddress::CLICK_THS_A => 0x3A,
            RegisterAddress::TIME_LIMIT_A => 0x3B,
            RegisterAddress::TIME_LATENCY_A => 0x3C,
            RegisterAddress::TIME_WINDOW_A => 0x3D,
        }
    }

    /// The register may be written; the others are read-only.
    pub open spec fn spec_is_writable(&self) -> bool {
        match self {
            RegisterAddress::CTRL_REG1_A => true,
            RegisterAddress::CTRL_REG2_A => true,
            RegisterAddress::CTRL_REG3_A => true,
            RegisterAddress::CTRL_REG4_A => true,
            RegisterAddress::CTRL_REG5_A => true,
            RegisterAddress::CTRL_REG6_A => true,
            RegisterAddress::REFERENCE_A => true,
            RegisterAddress::FIFO_CTRL_REG_A => true,
            RegisterAddress::INT1_CFG_A => true,
            RegisterAddress::INT1_THS_A => true,
            RegisterAddress::INT1_DURATION_A => true,
            RegisterAddress::INT2_CFG_A => true,
            RegisterAddress::INT2_THS_A => true,
            RegisterAddress::INT2_DURATION_A => true,
            RegisterAddress::CLICK_CFG_A => true,
            RegisterAddress::CLICK_THS_A => true,
            RegisterAddress::TIME_LIMIT_A => true,
            RegisterAddress::TIME_LATENCY_A => true,
            RegisterAddress::TIME_WINDOW_A => true,
            _ => false,
        }
    }

    /// Returns the address of a register.
    #[verifier::when_used_as_spec(spec_addr)]
    pub fn addr(&self) -> (r: u8)
        ensures
            r == self.spec_addr(),
    {
        match self {
            RegisterAddress::CTRL_REG1_A => 0x20,
            RegisterAddress::CTRL_REG2_A => 0x21,
            RegisterAddress::CTRL_REG3_A => 0x22,
            RegisterAddress::CTRL_REG4_A => 0x23,
            RegisterAddress::CTRL_REG5_A => 0x24,
            RegisterAddress::CTRL_REG6_A => 0x25,
            RegisterAddress::REFERENCE_A => 0x26,
            RegisterAddress::STATUS_REG_A => 0x27,
            RegisterAddress::OUT_X_L_A => 0x28,
            RegisterAddress::OUT_X_H_A => 0x29,
            RegisterAddress::OUT_Y_L_A => 0x2A,
            RegisterAddress::OUT_Y_H_A => 0x2B,
            RegisterAddress::OUT_Z_L_A => 0x2C,
            RegisterAddress::OUT_Z_H_A => 0x2D,
            RegisterAddress::FIFO_CTRL_REG_A => 0x2E,
            RegisterAddress::FIFO_SRC_REG_A => 0x2F,
            RegisterAddress::INT1_CFG_A => 0x30,
            RegisterAddress::INT1_SRC_A => 0x31,
            RegisterAddress::INT1_THS_A => 0x32,
            RegisterAddress::INT1_DURATION_A => 0x33,
            RegisterAddress::INT2_CFG_A => 0x34,
            RegisterAddress::INT2_SRC_A => 0x35,
            RegisterAddress::INT2_THS_A => 0x36,
            RegisterAddress::INT2_DURATION_A => 0x37,
            RegisterAddress::CLICK_CFG_A => 0x38,
            RegisterAddress::CLICK_SRC_A => 0x39,
            RegisterAddress::CLICK_THS_A => 0x3A,
            RegisterAddress::TIME_LIMIT_A => 0x3B,
            RegisterAddress::TIME_LATENCY_A => 0x3C,
            RegisterAddress::TIME_WINDOW_A => 0x3D,
        }
    }

    /// Tells whether the register may be written.
    #[verifier::when_used_as_spec(spec_is_writable)]
    pub fn is_writable(&self) -> (r: bool)
        ensures
            r == self.spec_is_writable(),
    {
        match self {
            RegisterAddress::CTRL_REG1_A => true,
            RegisterAddress::CTRL_REG2_A => true,
            RegisterAddress::CTRL_REG3_A => true,
            RegisterAddress::CTRL_REG4_A => true,
            RegisterAddress::CTRL_REG5_A => true,
            RegisterAddress::CTRL_REG6_A => true,
            RegisterAddress::REFERENCE_A => true,
            RegisterAddress::FIFO_CTRL_REG_A => true,
            RegisterAddress::INT1_CFG_A => true,
            RegisterAddress::INT1_THS_A => true,
            RegisterAddress::INT1_DURATION_A => true,
            RegisterAddress::INT2_CFG_A => true,
            RegisterAddress::INT2_THS_A => true,
            RegisterAddress::INT2_DURATION_A => true,
            RegisterAddress::CLICK_CFG_A => true,
            RegisterAddress::CLICK_THS_A => true,
            RegisterAddress::TIME_LIMIT_A => true,
            RegisterAddress::TIME_LATENCY_A => true,
            RegisterAddress::TIME_WINDOW_A => true,
            _ => false,
        }
    }
}

impl From<RegisterAddress> for u8 {
    fn from(value: RegisterAddress) -> (r: u8) {
        value.addr()
    }
}

impl vstd::std_specs::convert::FromSpecImpl<RegisterAddress> for u8 {
    open spec fn obeys_from_spec() -> bool {
        true
    }

    open spec fn from_spec(v: RegisterAddress) -> u8 {
        v.spec_addr()
    }
}

impl RegisterAddress {
    /// No two registers share a sub-address, and every sub-address lies in
    /// `0x20..=0x3D`.
    pub proof fn lemma_addresses_distinct(a: RegisterAddress, b: RegisterAddress)
        ensures
            a != b ==> a.spec_addr() != b.spec_addr(),
            0x20 <= a.spec_addr() <= 0x3D,
    {
    }
}

/// `CTRL_REG1_A` (20h): data rate, power mode and axis enables.
#[derive(Clone, Copy, Debug, PartialEq, Eq, Structural)]
pub struct ControlRegister1A {
    bits: u8,
}

impl View for ControlRegister1A {
    type V = u8;

    closed spec fn view(&self) -> u8 {
        self.bits
    }
}

impl ControlRegister1A {
    /// Creates the power-on value, `0b0000_0111`.
    pub fn new() -> (r: Self)
        ensures
            r@ == 0b0000_0111,
    {
        ControlRegister1A { bits: 0b0000_0111 }
    }

    /// Creates a value from the register byte.
    pub fn from_bits(bits: u8) -> (r: Self)
        ensures
            r@ == bits,
    {
        ControlRegister1A { bits }
    }

    /// Returns the register byte.
    pub fn into_bits(self) -> (r: u8)
        ensures
            r == self@,
    {
        self.bits
    }

    /// Data rate selection.
    ///
    /// Bits 4..8.
    pub fn output_data_rate(&self) -> (r: AccelOdr)
        ensures
            r == AccelOdr::spec_from_bits(field_of(self@, 4, 4)),
    {
        AccelOdr::from_bits(get_field(self.bits, 4, 4))
    }

    /// Returns the value with [`output_data_rate`](Self::output_data_rate) replaced by `value`.
    pub fn with_output_data_rate(self, value: AccelOdr) -> (r: Self)
        ensures
            r@ == with_field(self@, 4, 4, value.into_bits()),
    {
        ControlRegister1A { bits: put_field(self.bits, 4, 4, value.into_bits()) }
    }

    /// Sets [`output_data_rate`](Self::output_data_rate) to `value`.
    pub fn set_output_data_rate(&mut self, value: AccelOdr)
        ensures
            final(self)@ == with_field(old(self)@, 4, 4, value.into_bits()),
    {
        self.bits = put_field(self.bits, 4, 4, value.into_bits());
    }

    /// Low-power mode enable.
    ///
    /// Bit 3.
    pub fn low_power_enable(&self) -> (r: bool)
        ensures
            r == flag_of(self@, 3),
    {
        get_flag(self.bits, 3)
    }

    /// Returns the value with [`low_power_enable`](Self::low_power_enable) replaced by `value`.
    pub fn with_low_power_enable(self, value: bool) -> (r: Self)
        ensures
            r@ == with_field(self@, 3, 1, flag_bits(value)),
    {
        ControlRegister1A { bits: put_flag(self.bits, 3, value) }
    }

    /// Sets [`low_power_enable`](Self::low_power_enable) to `value`.
    pub fn set_low_power_enable(&mut self, value: bool)
        ensures
            final(self)@ == with_field(old(self)@, 3, 1, flag_bits(value)),
    {
        self.bits = put_flag(self.bits, 3, value);
    }

    /// Z-axis enable.
    ///
    /// Bit 2.
    pub fn z_enable(&self) -> (r: bool)
        ensures
            r == flag_of(self@, 2),
    {
        get_flag(self.bits, 2)
    }

    /// Returns the value with [`z_enable`](Self::z_enable) replaced by `value`.
    pub fn with_z_enable(self, value: bool) -> (r: Self)
        ensures
            r@ == with_field(self@, 2, 1, flag_bits(value)),
    {
        ControlRegister1A { bits: put_flag(self.bits, 2, value) }
    }

    /// Sets [`z_enable`](Self::z_enable) to `value`.
    pub fn set_z_enable(&mut self, value: bool)
        ensures
            final(self)@ == with_field(old(self)@, 2, 1, flag_bits(value)),
    {
        self.bits = put_flag(self.bits, 2, value);
    }

    /// Y-axis enable.
    ///
    /// Bit 1.
    pub fn y_enable(&self) -> (r: bool)
        ensures
            r == flag_of(self@, 1),
    {
        get_flag(self.bits, 1)
    }

    /// Returns the value with [`y_enable`](Self::y_enable) replaced by `value`.
    pub fn with_y_enable(self, value: bool) -> (r: Self)
        ensures
            r@ == with_field(self@, 1, 1, flag_bits(value)),
    {
        ControlRegister1A { bits: put_flag(self.bits, 1, value) }
    }

    /// Sets [`y_enable`](Self::y_enable) to `value`.
    pub fn set_y_enable(&mut self, value: bool)
        ensures
            final(self)@ == with_field(old(self)@, 1, 1, flag_bits(value)),
    {
        self.bits = put_flag(self.bits, 1, value);
    }

    /// X-axis enable.
    ///
    /// Bit 0.
    pub fn x_enable(&self) -> (r: bool)
        ensures
            r == flag_of(self@, 0),
    {
        get_flag(self.bits, 0)
    }

    /// Returns the value with [`x_enable`](Self::x_enable) replaced by `value`.
    pub fn with_x_enable(self, value: bool) -> (r: Self)
        ensures
            r@ == with_field(self@, 0, 1, flag_bits(value)),
    {
        ControlRegister1A { bits: put_flag(self.bits, 0, value) }
    }

    /// Sets [`x_enable`](Self::x_enable) to `value`.
    pub fn set_x_enable(&mut self, value: bool)
        ensures
            final(self)@ == with_field(old(self)@, 0, 1, flag_bits(value)),
    {
        self.bits = put_flag(self.bits, 0, value);
    }
}

impl Default for ControlRegister1A {
    /// The power-on value, `0b0000_0111`.
    fn default() -> (r: Self)
        ensures
            r@ == 0b0000_0111,
    {
        Self::new()
    }
}

impl Register for ControlRegister1A {
    open spec fn raw_bits(&self) -> u8 {
        self@
    }

    closed spec fn spec_from_bits(bits: u8) -> Self {
        ControlRegister1A { bits }
    }

    open spec fn spec_device_address() -> u8 {
        DEFAULT_DEVICE_ADDRESS
    }

    open spec fn spec_register_address() -> u8 {
        RegisterAddress::CTRL_REG1_A.spec_addr()
    }

    fn device_address() -> (r: u8) {
        DEFAULT_DEVICE_ADDRESS
    }

    fn register_address() -> (r: u8) {
        RegisterAddress::CTRL_REG1_A.addr()
    }

    fn from_bits(bits: u8) -> (r: Self) {
        ControlRegister1A { bits }
    }

    fn to_bits(&self) -> (r: u8) {
        self.bits
    }

    proof fn lemma_round_trip(value: Self, bits: u8) {
    }
}

impl WritableRegister for ControlRegister1A {

}

/// `CTRL_REG2_A` (21h): high-pass filter configuration.
#[derive(Clone, Copy, Debug, PartialEq, Eq, Structural)]
pub struct ControlRegister2A {
    bits: u8,
}

impl View for ControlRegister2A {
    type V = u8;

    closed spec fn view(&self) -> u8 {
        self.bits
    }
}

impl ControlRegister2A {
    /// Creates the power-on value, `0b0000_0000`.
    pub fn new() -> (r: Self)
        ensures
            r@ == 0b0000_0000,
    {
        ControlRegister2A { bits: 0b0000_0000 }
    }

    /// Creates a value from the register byte.
    pub fn from_bits(bits: u8) -> (r: Self)
        ensures
            r@ == bits,
    {
        ControlRegister2A { bits }
    }

    /// Returns the register byte.
    pub fn into_bits(self) -> (r: u8)
        ensures
            r == self@,
    {
        self.bits
    }

    /// High-pass filter mode selection.
    ///
    /// Bits 6..8.
    pub fn hpm(&self) -> (r: HighpassFilterMode)
        ensures
            r == HighpassFilterMode::spec_from_bits(field_of(self@, 6, 2)),
    {
        HighpassFilterMode::from_bits(get_field(self.bits, 6, 2))
    }

    /// Returns the value with [`hpm`](Self::hpm) replaced by `value`.
    pub fn with_hpm(self, value: HighpassFilterMode) -> (r: Self)
        ensures
            r@ == with_field(self@, 6, 2, value.into_bits()),
    {
        ControlRegister2A { bits: put_field(self.bits, 6, 2, value.into_bits()) }
    }

    /// Sets [`hpm`](Self::hpm) to `value`.
    pub fn set_hpm(&mut self, value: HighpassFilterMode)
        ensures
            final(self)@ == with_field(old(self)@, 6, 2, value.into_bits()),
    {
        self.bits = put_field(self.bits, 6, 2, value.into_bits());
    }

    /// High-pass filter cutoff frequency selection.
    ///
    /// Bits 4..6.
    pub fn hpcf(&self) -> (r: u8)
        ensures
            r == field_of(self@, 4, 2),
    {
        get_field(self.bits, 4, 2)
    }

    /// Returns the value with [`hpcf`](Self::hpcf) replaced by `value`.
    pub fn with_hpcf(self, value: u8) -> (r: Self)
        requires
            value < 4,
        ensures
            r@ == with_field(self@, 4, 2, value),
    {
        ControlRegister2A { bits: put_field(self.bits, 4, 2, value) }
    }

    /// Sets [`hpcf`](Self::hpcf) to `value`.
    pub fn set_hpcf(&mut self, value: u8)
        requires
            value < 4,
        ensures
            final(self)@ == with_field(old(self)@, 4, 2, value),
    {
        self.bits = put_field(self.bits, 4, 2, value);
    }

    /// Returns the value with [`hpcf`](Self::hpcf) replaced by `value`, or
    /// [`InvalidField`] when `value` does not fit in 2 bits.
    pub fn with_hpcf_checked(self, value: u8) -> (r: Result<Self, InvalidField>)
        ensures
            match r {
                Ok(v) => value < 4 && v@ == with_field(self@, 4, 2, value),
                Err(_) => value >= 4,
            },
    {
        if value < 4 {
            Ok(self.with_hpcf(value))
        } else {
            Err(InvalidField)
        }
    }

    /// Sets [`hpcf`](Self::hpcf) to `value`; fails with [`InvalidField`], and
    /// changes nothing, when `value` does not fit in 2 bits.
    pub fn set_hpcf_checked(&mut self, value: u8) -> (r: Result<(), InvalidField>)
        ensures
            value < 4 ==> r is Ok && final(self)@ == with_field(old(self)@, 4, 2, value),
            value >= 4 ==> r is Err && *final(self) == *old(self),
    {
        if value < 4 {
            self.set_hpcf(value);
            Ok(())
        } else {
            Err(InvalidField)
        }
    }

    /// Filtered data selection.
    ///
    /// Bit 3.
    pub fn fds(&self) -> (r: bool)
        ensures
            r == flag_of(self@, 3),
    {
        get_flag(self.bits, 3)
    }

    /// Returns the value with [`fds`](Self::fds) replaced by `value`.
    pub fn with_fds(self, value: bool) -> (r: Self)
        ensures
            r@ == with_field(self@, 3, 1, flag_bits(value)),
    {
        ControlRegister2A { bits: put_flag(self.bits, 3, value) }
    }

    /// Sets [`fds`](Self::fds) to `value`.
    pub fn set_fds(&mut self, value: bool)
        ensures
            final(self)@ == with_field(old(self)@, 3, 1, flag_bits(value)),
    {
        self.bits = put_flag(self.bits, 3, value);
    }

    /// High-pass filter enabled for the click function.
    ///
    /// Bit 2.
    pub fn hpclick(&self) -> (r: bool)
        ensures
            r == flag_of(self@, 2),
    {
        get_flag(self.bits, 2)
    }

    /// Returns the value with [`hpclick`](Self::hpclick) replaced by `value`.
    pub fn with_hpclick(self, value: bool) -> (r: Self)
        ensures
            r@ == with_field(self@, 2, 1, flag_bits(value)),
    {
        ControlRegister2A { bits: put_flag(self.bits, 2, value) }
    }

    /// Sets [`hpclick`](Self::hpclick) to `value`.
    pub fn set_hpclick(&mut self, value: bool)
        ensures
            final(self)@ == with_field(old(self)@, 2, 1, flag_bits(value)),
    {
        self.bits = put_flag(self.bits, 2, value);
    }

    /// High-pass filter enabled for the AOI function on interrupt 2.
    ///
    /// Bit 1.
    pub fn hpis2(&self) -> (r: bool)
        ensures
            r == flag_of(self@, 1),
    {
        get_flag(self.bits, 1)
    }

    /// Returns the value with [`hpis2`](Self::hpis2) replaced by `value`.
    pub fn with_hpis2(self, value: bool) -> (r: Self)
        ensures
            r@ == with_field(self@, 1, 1, flag_bits(value)),
    {
        ControlRegister2A { bits: put_flag(self.bits, 1, value) }
    }

    /// Sets [`hpis2`](Self::hpis2) to `value`.
    pub fn set_hpis2(&mut self, value: bool)
        ensures
            final(self)@ == with_field(old(self)@, 1, 1, flag_bits(value)),
    {
        self.bits = put_flag(self.bits, 1, value);
    }

    /// High-pass filter enabled for the AOI function on interrupt 1.
    ///
    /// Bit 0.
    pub fn hpis1(&self) -> (r: bool)
        ensures
            r == flag_of(self@, 0),
    {
        get_flag(self.bits, 0)
    }

    /// Returns the value with [`hpis1`](Self::hpis1) replaced by `value`.
    pub fn with_hpis1(self, value: bool) -> (r: Self)
        ensures
            r@ == with_field(self@, 0, 1, flag_bits(value)),
    {
        ControlRegister2A { bits: put_flag(self.bits, 0, value) }
    }

    /// Sets [`hpis1`](Self::hpis1) to `value`.
    pub fn set_hpis1(&mut self, value: bool)
        ensures
            final(self)@ == with_field(old(self)@, 0, 1, flag_bits(value)),
    {
        self.bits = put_flag(self.bits, 0, value);
    }
}

impl Default for ControlRegister2A {
    /// The power-on value, `0b0000_0000`.
    fn default() -> (r: Self)
        ensures
            r@ == 0b0000_0000,
    {
        Self::new()
    }
}

impl Register for ControlRegister2A {
    open spec fn raw_bits(&self) -> u8 {
        self@
    }

    closed spec fn spec_from_bits(bits: u8) -> Self {
        ControlRegister2A { bits }
    }

    open spec fn spec_device_address() -> u8 {
        DEFAULT_DEVICE_ADDRESS
    }

    open spec fn spec_register_address() -> u8 {
        RegisterAddress::CTRL_REG2_A.spec_addr()
    }

    fn device_address() -> (r: u8) {
        DEFAULT_DEVICE_ADDRESS
    }

    fn register_address() -> (r: u8) {
        RegisterAddress::CTRL_REG2_A.addr()
    }

    fn from_bits(bits: u8) -> (r: Self) {
        ControlRegister2A { bits }
    }

    fn to_bits(&self) -> (r: u8) {
        self.bits
    }

    proof fn lemma_round_trip(value: Self, bits: u8) {
    }
}

impl WritableRegister for ControlRegister2A {

}

/// `CTRL_REG3_A` (22h): interrupts routed to `INT1`.
#[derive(Clone, Copy, Debug, PartialEq, Eq, Structural)]
pub struct ControlRegister3A {
    bits: u8,
}

impl View for ControlRegister3A {
    type V = u8;

    closed spec fn view(&self) -> u8 {
        self.bits
    }
}

impl ControlRegister3A {
    /// Creates the power-on value, `0b0000_0000`.
    pub fn new() -> (r: Self)
        ensures
            r@ == 0b0000_0000,
    {
        ControlRegister3A { bits: 0b0000_0000 }
    }

    /// Creates a value from the register byte.
    pub fn from_bits(bits: u8) -> (r: Self)
        ensures
            r@ == bits,
    {
        ControlRegister3A { bits }
    }

    /// Returns the register byte.
    pub fn into_bits(self) -> (r: u8)
        ensures
            r == self@,
    {
        self.bits
    }

    /// Enable the CLICK interrupt on `INT1`.
    ///
    /// Bit 7.
    pub fn i1click(&self) -> (r: bool)
        ensures
            r == flag_of(self@, 7),
    {
        get_flag(self.bits, 7)
    }

    /// Returns the value with [`i1click`](Self::i1click) replaced by `value`.
    pub fn with_i1click(self, value: bool) -> (r: Self)
        ensures
            r@ == with_field(self@, 7, 1, flag_bits(value)),
    {
        ControlRegister3A { bits: put_flag(self.bits, 7, value) }
    }

    /// Sets [`i1click`](Self::i1click) to `value`.
    pub fn set_i1click(&mut self, value: bool)
        ensures
            final(self)@ == with_field(old(self)@, 7, 1, flag_bits(value)),
    {
        self.bits = put_flag(self.bits, 7, value);
    }

    /// Enable the AOI1 interrupt on `INT1`.
    ///
    /// Bit 6.
    pub fn i1aoi1(&self) -> (r: bool)
        ensures
            r == flag_of(self@, 6),
    {
        get_flag(self.bits, 6)
    }

    /// Returns the value with [`i1aoi1`](Self::i1aoi1) replaced by `value`.
    pub fn with_i1aoi1(self, value: bool) -> (r: Self)
        ensures
            r@ == with_field(self@, 6, 1, flag_bits(value)),
    {
        ControlRegister3A { bits: put_flag(self.bits, 6, value) }
    }

    /// Sets [`i1aoi1`](Self::i1aoi1) to `value`.
    pub fn set_i1aoi1(&mut self, value: bool)
        ensures
            final(self)@ == with_field(old(self)@, 6, 1, flag_bits(value)),
    {
        self.bits = put_flag(self.bits, 6, value);
    }

    /// Enable the AOI2 interrupt on `INT1`.
    ///
    /// Bit 5.
    pub fn i1aoi2(&self) -> (r: bool)
        ensures
            r == flag_of(self@, 5),
    {
        get_flag(self.bits, 5)
    }

    /// Returns the value with [`i1aoi2`](Self::i1aoi2) replaced by `value`.
    pub fn with_i1aoi2(self, value: bool) -> (r: Self)
        ensures
            r@ == with_field(self@, 5, 1, flag_bits(value)),
    {
        ControlRegister3A { bits: put_flag(self.bits, 5, value) }
    }

    /// Sets [`i1aoi2`](Self::i1aoi2) to `value`.
    pub fn set_i1aoi2(&mut self, value: bool)
        ensures
            final(self)@ == with_field(old(self)@, 5, 1, flag_bits(value)),
    {
        self.bits = put_flag(self.bits, 5, value);
    }

    /// Enable the accelerometer data ready (`DRDY1`) interrupt on `INT1`.
    ///
    /// On a sensor in its power-on state this raises `INT1` whenever the
    /// accelerometer has new data.
    ///
    /// Bit 4.
    pub fn i1drdy1(&self) -> (r: bool)
        ensures
            r == flag_of(self@, 4),
    {
        get_flag(self.bits, 4)
    }

    /// Returns the value with [`i1drdy1`](Self::i1drdy1) replaced by `value`.
    pub fn with_i1drdy1(self, value: bool) -> (r: Self)
        ensures
            r@ == with_field(self@, 4, 1, flag_bits(value)),
    {
        ControlRegister3A { bits: put_flag(self.bits, 4, value) }
    }

    /// Sets [`i1drdy1`](Self::i1drdy1) to `value`.
    pub fn set_i1drdy1(&mut self, value: bool)
        ensures
            final(self)@ == with_field(old(self)@, 4, 1, flag_bits(value)),
    {
        self.bits = put_flag(self.bits, 4, value);
    }

    /// Enable the accelerometer data ready (`DRDY2`) interrupt on `INT1`.
    ///
    /// Bit 3.
    pub fn i1drdy2(&self) -> (r: bool)
        ensures
            r == flag_of(self@, 3),
    {
        get_flag(self.bits, 3)
    }

    /// Returns the value with [`i1drdy2`](Self::i1drdy2) replaced by `value`.
    pub fn with_i1drdy2(self, value: bool) -> (r: Self)
        ensures
            r@ == with_field(self@, 3, 1, flag_bits(value)),
    {
        ControlRegister3A { bits: put_flag(self.bits, 3, value) }
    }

    /// Sets [`i1drdy2`](Self::i1drdy2) to `value`.
    pub fn set_i1drdy2(&mut self, value: bool)
        ensures
            final(self)@ == with_field(old(self)@, 3, 1, flag_bits(value)),
    {
        self.bits = put_flag(self.bits, 3, value);
    }

    /// Enable the FIFO watermark interrupt on `INT1`.
    ///
    /// Bit 2.
    pub fn i1wtm(&self) -> (r: bool)
        ensures
            r == flag_of(self@, 2),
    {
        get_flag(self.bits, 2)
    }

    /// Returns the value with [`i1wtm`](Self::i1wtm) replaced by `value`.
    pub fn with_i1wtm(self, value: bool) -> (r: Self)
        ensures
            r@ == with_field(self@, 2, 1, flag_bits(value)),
    {
        ControlRegister3A { bits: put_flag(self.bits, 2, value) }
    }

    /// Sets [`i1wtm`](Self::i1wtm) to `value`.
    pub fn set_i1wtm(&mut self, value: bool)
        ensures
            final(self)@ == with_field(old(self)@, 2, 1, flag_bits(value)),
    {
        self.bits = put_flag(self.bits, 2, value);
    }

    /// Enable the FIFO overrun interrupt on `INT1`.
    ///
    /// Bit 1.
    pub fn i1overrun(&self) -> (r: bool)
        ensures
            r == flag_of(self@, 1),
    {
        get_flag(self.bits, 1)
    }

    /// Returns the value with [`i1overrun`](Self::i1overrun) replaced by `value`.
    pub fn with_i1overrun(self, value: bool) -> (r: Self)
        ensures
            r@ == with_field(self@, 1, 1, flag_bits(value)),
    {
        ControlRegister3A { bits: put_flag(self.bits, 1, value) }
    }

    /// Sets [`i1overrun`](Self::i1overrun) to `value`.
    pub fn set_i1overrun(&mut self, value: bool)
        ensures
            final(self)@ == with_field(old(self)@, 1, 1, flag_bits(value)),
    {
        self.bits = put_flag(self.bits, 1, value);
    }
}

impl Default for ControlRegister3A {
    /// The power-on value, `0b0000_0000`.
    fn default() -> (r: Self)
        ensures
            r@ == 0b0000_0000,
    {
        Self::new()
    }
}

impl Register for ControlRegister3A {
    open spec fn raw_bits(&self) -> u8 {
        self@
    }

    closed spec fn spec_from_bits(bits: u8) -> Self {
        ControlRegister3A { bits }
    }

    open spec fn spec_device_address() -> u8 {
        DEFAULT_DEVICE_ADDRESS
    }

    open spec fn spec_register_address() -> u8 {
        RegisterAddress::CTRL_REG3_A.spec_addr()
    }

    fn device_address() -> (r: u8) {
        DEFAULT_DEVICE_ADDRESS
    }

    fn register_address() -> (r: u8) {
        RegisterAddress::CTRL_REG3_A.addr()
    }

    fn from_bits(bits: u8) -> (r: Self) {
        ControlRegister3A { bits }
    }

    fn to_bits(&self) -> (r: u8) {
        self.bits
    }

    proof fn lemma_round_trip(value: Self, bits: u8) {
    }
}

impl WritableRegister for ControlRegister3A {

}

/// `CTRL_REG4_A` (23h): data format and full scale.
#[derive(Clone, Copy, Debug, PartialEq, Eq, Structural)]
pub struct ControlRegister4A {
    bits: u8,
}

impl View for ControlRegister4A {
    type V = u8;

    closed spec fn view(&self) -> u8 {
        self.bits
    }
}

impl ControlRegister4A {
    /// Creates the power-on value, `0b0000_0000`.
    pub fn new() -> (r: Self)
        ensures
            r@ == 0b0000_0000,
    {
        ControlRegister4A { bits: 0b0000_0000 }
    }

    /// Creates a value from the register byte.
    pub fn from_bits(bits: u8) -> (r: Self)
        ensures
            r@ == bits,
    {
        ControlRegister4A { bits }
    }

    /// Returns the register byte.
    pub fn into_bits(self) -> (r: u8)
        ensures
            r == self@,
    {
        self.bits
    }

    /// Block data update.
    ///
    /// In the default mode (`false`) the lower and upper output bytes are
    /// updated continuously. When set, after one half of an output register is
    /// read the other half is not updated until it has been read as well, so the
    /// two bytes always belong to the same sample.
    ///
    /// * `false` - continuous update
    /// * `true` - output registers not updated until MSB and LSB have been read
    ///
    /// Bit 7.
    pub fn block_data_update(&self) -> (r: bool)
        ensures
            r == flag_of(self@, 7),
    {
        get_flag(self.bits, 7)
    }

    /// Returns the value with [`block_data_update`](Self::block_data_update) replaced by `value`.
    pub fn with_block_data_update(self, value: bool) -> (r: Self)
        ensures
            r@ == with_field(self@, 7, 1, flag_bits(value)),
    {
        ControlRegister4A { bits: put_flag(self.bits, 7, value) }
    }

    /// Sets [`block_data_update`](Self::block_data_update) to `value`.
    pub fn set_block_data_update(&mut self, value: bool)
        ensures
            final(self)@ == with_field(old(self)@, 7, 1, flag_bits(value)),
    {
        self.bits = put_flag(self.bits, 7, value);
    }

    /// Big/little endian data selection.
    ///
    /// * `false` - data LSB @ lower address
    /// * `true` - data MSB @ lower address
    ///
    /// Bit 6.
    pub fn big_endian(&self) -> (r: bool)
        ensures
            r == flag_of(self@, 6),
    {
        get_flag(self.bits, 6)
    }

    /// Returns the value with [`big_endian`](Self::big_endian) replaced by `value`.
    pub fn with_big_endian(self, value: bool) -> (r: Self)
        ensures
            r@ == with_field(self@, 6, 1, flag_bits(value)),
    {
        ControlRegister4A { bits: put_flag(self.bits, 6, value) }
    }

    /// Sets [`big_endian`](Self::big_endian) to `value`.
    pub fn set_big_endian(&mut self, value: bool)
        ensures
            final(self)@ == with_field(old(self)@, 6, 1, flag_bits(value)),
    {
        self.bits = put_flag(self.bits, 6, value);
    }

    /// Full-scale selection.
    ///
    /// Bits 4..6.
    pub fn full_scale(&self) -> (r: Sensitivity)
        ensures
            r == Sensitivity::spec_from_bits(field_of(self@, 4, 2)),
    {
        Sensitivity::from_bits(get_field(self.bits, 4, 2))
    }

    /// Returns the value with [`full_scale`](Self::full_scale) replaced by `value`.
    pub fn with_full_scale(self, value: Sensitivity) -> (r: Self)
        ensures
            r@ == with_field(self@, 4, 2, value.into_bits()),
    {
        ControlRegister4A { bits: put_field(self.bits, 4, 2, value.into_bits()) }
    }

    /// Sets [`full_scale`](Self::full_scale) to `value`.
    pub fn set_full_scale(&mut self, value: Sensitivity)
        ensures
            final(self)@ == with_field(old(self)@, 4, 2, value.into_bits()),
    {
        self.bits = put_field(self.bits, 4, 2, value.into_bits());
    }

    /// High-resolution output mode.
    ///
    /// Bit 3.
    pub fn high_resolution(&self) -> (r: bool)
        ensures
            r == flag_of(self@, 3),
    {
        get_flag(self.bits, 3)
    }

    /// Returns the value with [`high_resolution`](Self::high_resolution) replaced by `value`.
    pub fn with_high_resolution(self, value: bool) -> (r: Self)
        ensures
            r@ == with_field(self@, 3, 1, flag_bits(value)),
    {
        ControlRegister4A { bits: put_flag(self.bits, 3, value) }
    }

    /// Sets [`high_resolution`](Self::high_resolution) to `value`.
    pub fn set_high_resolution(&mut self, value: bool)
        ensures
            final(self)@ == with_field(old(self)@, 3, 1, flag_bits(value)),
    {
        self.bits = put_flag(self.bits, 3, value);
    }

    /// SPI serial interface mode.
    ///
    /// * `false` - 4-wire interface
    /// * `true` - 3-wire interface
    ///
    /// Bit 0.
    pub fn spi_serial_3wire(&self) -> (r: bool)
        ensures
            r == flag_of(self@, 0),
    {
        get_flag(self.bits, 0)
    }

    /// Returns the value with [`spi_serial_3wire`](Self::spi_serial_3wire) replaced by `value`.
    pub fn with_spi_serial_3wire(self, value: bool) -> (r: Self)
        ensures
            r@ == with_field(self@, 0, 1, flag_bits(value)),
    {
        ControlRegister4A { bits: put_flag(self.bits, 0, value) }
    }

    /// Sets [`spi_serial_3wire`](Self::spi_serial_3wire) to `value`.
    pub fn set_spi_serial_3wire(&mut self, value: bool)
        ensures
            final(self)@ == with_field(old(self)@, 0, 1, flag_bits(value)),
    {
        self.bits = put_flag(self.bits, 0, value);
    }
}

impl Default for ControlRegister4A {
    /// The power-on value, `0b0000_0000`.
    fn default() -> (r: Self)
        ensures
            r@ == 0b0000_0000,
    {
        Self::new()
    }
}

impl Register for ControlRegister4A {
    open spec fn raw_bits(&self) -> u8 {
        self@
    }

    closed spec fn spec_from_bits(bits: u8) -> Self {
        ControlRegister4A { bits }
    }

    open spec fn spec_device_address() -> u8 {
        DEFAULT_DEVICE_ADDRESS
    }

    open spec fn spec_register_address() -> u8 {
        RegisterAddress::CTRL_REG4_A.spec_addr()
    }

    fn device_address() -> (r: u8) {
        DEFAULT_DEVICE_ADDRESS
    }

    fn register_address() -> (r: u8) {
        RegisterAddress::CTRL_REG4_A.addr()
    }

    fn from_bits(bits: u8) -> (r: Self) {
        ControlRegister4A { bits }
    }

    fn to_bits(&self) -> (r: u8) {
        self.bits
    }

    proof fn lemma_round_trip(value: Self, bits: u8) {
    }
}

impl WritableRegister for ControlRegister4A {

}

/// `CTRL_REG5_A` (24h): memory reboot, FIFO and interrupt latching.
#[derive(Clone, Copy, Debug, PartialEq, Eq, Structural)]
pub struct ControlRegister5A {
    bits: u8,
}

impl View for ControlRegister5A {
    type V = u8;

    closed spec fn view(&self) -> u8 {
        self.bits
    }
}

impl ControlRegister5A {
    /// Creates the power-on value, `0b0000_0000`.
    pub fn new() -> (r: Self)
        ensures
            r@ == 0b0000_0000,
    {
        ControlRegister5A { bits: 0b0000_0000 }
    }

    /// Creates a value from the register byte.
    pub fn from_bits(bits: u8) -> (r: Self)
        ensures
            r@ == bits,
    {
        ControlRegister5A { bits }
    }

    /// Returns the register byte.
    pub fn into_bits(self) -> (r: u8)
        ensures
            r == self@,
    {
        self.bits
    }

    /// Reboot memory content.
    ///
    /// Bit 7.
    pub fn boot(&self) -> (r: bool)
        ensures
            r == flag_of(self@, 7),
    {
        get_flag(self.bits, 7)
    }

    /// Returns the value with [`boot`](Self::boot) replaced by `value`.
    pub fn with_boot(self, value: bool) -> (r: Self)
        ensures
            r@ == with_field(self@, 7, 1, flag_bits(value)),
    {
        ControlRegister5A { bits: put_flag(self.bits, 7, value) }
    }

    /// Sets [`boot`](Self::boot) to `value`.
    pub fn set_boot(&mut self, value: bool)
        ensures
            final(self)@ == with_field(old(self)@, 7, 1, flag_bits(value)),
    {
        self.bits = put_flag(self.bits, 7, value);
    }

    /// Enable the FIFO.
    ///
    /// Bit 6.
    pub fn fifo_enable(&self) -> (r: bool)
        ensures
            r == flag_of(self@, 6),
    {
        get_flag(self.bits, 6)
    }

    /// Returns the value with [`fifo_enable`](Self::fifo_enable) replaced by `value`.
    pub fn with_fifo_enable(self, value: bool) -> (r: Self)
        ensures
            r@ == with_field(self@, 6, 1, flag_bits(value)),
    {
        ControlRegister5A { bits: put_flag(self.bits, 6, value) }
    }

    /// Sets [`fifo_enable`](Self::fifo_enable) to `value`.
    pub fn set_fifo_enable(&mut self, value: bool)
        ensures
            final(self)@ == with_field(old(self)@, 6, 1, flag_bits(value)),
    {
        self.bits = put_flag(self.bits, 6, value);
    }

    /// Latch the interrupt request on `INT1_SRC`; reading `INT1_SRC` clears it.
    ///
    /// Bit 3.
    pub fn lir_int1(&self) -> (r: bool)
        ensures
            r == flag_of(self@, 3),
    {
        get_flag(self.bits, 3)
    }

    /// Returns the value with [`lir_int1`](Self::lir_int1) replaced by `value`.
    pub fn with_lir_int1(self, value: bool) -> (r: Self)
        ensures
            r@ == with_field(self@, 3, 1, flag_bits(value)),
    {
        ControlRegister5A { bits: put_flag(self.bits, 3, value) }
    }

    /// Sets [`lir_int1`](Self::lir_int1) to `value`.
    pub fn set_lir_int1(&mut self, value: bool)
        ensures
            final(self)@ == with_field(old(self)@, 3, 1, flag_bits(value)),
    {
        self.bits = put_flag(self.bits, 3, value);
    }

    /// 4D detection on `INT1` when the 6D bit of `INT1_CFG` is set.
    ///
    /// Bit 2.
    pub fn d4d_int1(&self) -> (r: bool)
        ensures
            r == flag_of(self@, 2),
    {
        get_flag(self.bits, 2)
    }

    /// Returns the value with [`d4d_int1`](Self::d4d_int1) replaced by `value`.
    pub fn with_d4d_int1(self, value: bool) -> (r: Self)
        ensures
            r@ == with_field(self@, 2, 1, flag_bits(value)),
    {
        ControlRegister5A { bits: put_flag(self.bits, 2, value) }
    }

    /// Sets [`d4d_int1`](Self::d4d_int1) to `value`.
    pub fn set_d4d_int1(&mut self, value: bool)
        ensures
            final(self)@ == with_field(old(self)@, 2, 1, flag_bits(value)),
    {
        self.bits = put_flag(self.bits, 2, value);
    }

    /// Latch the interrupt request on `INT2_SRC`; reading `INT2_SRC` clears it.
    ///
    /// Bit 1.
    pub fn lir_int2(&self) -> (r: bool)
        ensures
            r == flag_of(self@, 1),
    {
        get_flag(self.bits, 1)
    }

    /// Returns the value with [`lir_int2`](Self::lir_int2) replaced by `value`.
    pub fn with_lir_int2(self, value: bool) -> (r: Self)
        ensures
            r@ == with_field(self@, 1, 1, flag_bits(value)),
    {
        ControlRegister5A { bits: put_flag(self.bits, 1, value) }
    }

    /// Sets [`lir_int2`](Self::lir_int2) to `value`.
    pub fn set_lir_int2(&mut self, value: bool)
        ensures
            final(self)@ == with_field(old(self)@, 1, 1, flag_bits(value)),
    {
        self.bits = put_flag(self.bits, 1, value);
    }

    /// 4D detection on `INT2` when the 6D bit of `INT2_CFG` is set.
    ///
    /// Bit 0.
    pub fn d4d_int2(&self) -> (r: bool)
        ensures
            r == flag_of(self@, 0),
    {
        get_flag(self.bits, 0)
    }

    /// Returns the value with [`d4d_int2`](Self::d4d_int2) replaced by `value`.
    pub fn with_d4d_int2(self, value: bool) -> (r: Self)
        ensures
            r@ == with_field(self@, 0, 1, flag_bits(value)),
    {
        ControlRegister5A { bits: put_flag(self.bits, 0, value) }
    }

    /// Sets [`d4d_int2`](Self::d4d_int2) to `value`.
    pub fn set_d4d_int2(&mut self, value: bool)
        ensures
            final(self)@ == with_field(old(self)@, 0, 1, flag_bits(value)),
    {
        self.bits = put_flag(self.bits, 0, value);
    }
}

impl Default for ControlRegister5A {
    /// The power-on value, `0b0000_0000`.
    fn default() -> (r: Self)
        ensures
            r@ == 0b0000_0000,
    {
        Self::new()
    }
}

impl Register for ControlRegister5A {
    open spec fn raw_bits(&self) -> u8 {
        self@
    }

    closed spec fn spec_from_bits(bits: u8) -> Self {
        ControlRegister5A { bits }
    }

    open spec fn spec_device_address() -> u8 {
        DEFAULT_DEVICE_ADDRESS
    }

    open spec fn spec_register_address() -> u8 {
        RegisterAddress::CTRL_REG5_A.spec_addr()
    }

    fn device_address() -> (r: u8) {
        DEFAULT_DEVICE_ADDRESS
    }

    fn register_address() -> (r: u8) {
        RegisterAddress::CTRL_REG5_A.addr()
    }

    fn from_bits(bits: u8) -> (r: Self) {
        ControlRegister5A { bits }
    }

    fn to_bits(&self) -> (r: u8) {
        self.bits
    }

    proof fn lemma_round_trip(value: Self, bits: u8) {
    }
}

impl WritableRegister for ControlRegister5A {

}

/// `CTRL_REG6_A` (25h): functions routed to `PAD2`.
#[derive(Clone, Copy, Debug, PartialEq, Eq, Structural)]
pub struct ControlRegister6A {
    bits: u8,
}

impl View for ControlRegister6A {
    type V = u8;

    closed spec fn view(&self) -> u8 {
        self.bits
    }
}

impl ControlRegister6A {
    /// Creates the power-on value, `0b0000_0000`.
    pub fn new() -> (r: Self)
        ensures
            r@ == 0b0000_0000,
    {
        ControlRegister6A { bits: 0b0000_0000 }
    }

    /// Creates a value from the register byte.
    pub fn from_bits(bits: u8) -> (r: Self)
        ensures
            r@ == bits,
    {
        ControlRegister6A { bits }
    }

    /// Returns the register byte.
    pub fn into_bits(self) -> (r: u8)
        ensures
            r == self@,
    {
        self.bits
    }

    /// CLICK interrupt enable on `PAD2`.
    ///
    /// Bit 7.
    pub fn i2click_en(&self) -> (r: bool)
        ensures
            r == flag_of(self@, 7),
    {
        get_flag(self.bits, 7)
    }

    /// Returns the value with [`i2click_en`](Self::i2click_en) replaced by `value`.
    pub fn with_i2click_en(self, value: bool) -> (r: Self)
        ensures
            r@ == with_field(self@, 7, 1, flag_bits(value)),
    {
        ControlRegister6A { bits: put_flag(self.bits, 7, value) }
    }

    /// Sets [`i2click_en`](Self::i2click_en) to `value`.
    pub fn set_i2click_en(&mut self, value: bool)
        ensures
            final(self)@ == with_field(old(self)@, 7, 1, flag_bits(value)),
    {
        self.bits = put_flag(self.bits, 7, value);
    }

    /// Interrupt 1 on `PAD2`.
    ///
    /// Bit 6.
    pub fn i2int1(&self) -> (r: bool)
        ensures
            r == flag_of(self@, 6),
    {
        get_flag(self.bits, 6)
    }

    /// Returns the value with [`i2int1`](Self::i2int1) replaced by `value`.
    pub fn with_i2int1(self, value: bool) -> (r: Self)
        ensures
            r@ == with_field(self@, 6, 1, flag_bits(value)),
    {
        ControlRegister6A { bits: put_flag(self.bits, 6, value) }
    }

    /// Sets [`i2int1`](Self::i2int1) to `value`.
    pub fn set_i2int1(&mut self, value: bool)
        ensures
            final(self)@ == with_field(old(self)@, 6, 1, flag_bits(value)),
    {
        self.bits = put_flag(self.bits, 6, value);
    }

    /// Interrupt 2 on `PAD2`.
    ///
    /// Bit 5.
    pub fn i2int2(&self) -> (r: bool)
        ensures
            r == flag_of(self@, 5),
    {
        get_flag(self.bits, 5)
    }

    /// Returns the value with [`i2int2`](Self::i2int2) replaced by `value`.
    pub fn with_i2int2(self, value: bool) -> (r: Self)
        ensures
            r@ == with_field(self@, 5, 1, flag_bits(value)),
    {
        ControlRegister6A { bits: put_flag(self.bits, 5, value) }
    }

    /// Sets [`i2int2`](Self::i2int2) to `value`.
    pub fn set_i2int2(&mut self, value: bool)
        ensures
            final(self)@ == with_field(old(self)@, 5, 1, flag_bits(value)),
    {
        self.bits = put_flag(self.bits, 5, value);
    }

    /// Reboot memory content on `PAD2`.
    ///
    /// Bit 4.
    pub fn boot_i1(&self) -> (r: bool)
        ensures
            r == flag_of(self@, 4),
    {
        get_flag(self.bits, 4)
    }

    /// Returns the value with [`boot_i1`](Self::boot_i1) replaced by `value`.
    pub fn with_boot_i1(self, value: bool) -> (r: Self)
        ensures
            r@ == with_field(self@, 4, 1, flag_bits(value)),
    {
        ControlRegister6A { bits: put_flag(self.bits, 4, value) }
    }

    /// Sets [`boot_i1`](Self::boot_i1) to `value`.
    pub fn set_boot_i1(&mut self, value: bool)
        ensures
            final(self)@ == with_field(old(self)@, 4, 1, flag_bits(value)),
    {
        self.bits = put_flag(self.bits, 4, value);
    }

    /// Active functions status on `PAD2`.
    ///
    /// Bit 3.
    pub fn p2_active(&self) -> (r: bool)
        ensures
            r == flag_of(self@, 3),
    {
        get_flag(self.bits, 3)
    }

    /// Returns the value with [`p2_active`](Self::p2_active) replaced by `value`.
    pub fn with_p2_active(self, value: bool) -> (r: Self)
        ensures
            r@ == with_field(self@, 3, 1, flag_bits(value)),
    {
        ControlRegister6A { bits: put_flag(self.bits, 3, value) }
    }

    /// Sets [`p2_active`](Self::p2_active) to `value`.
    pub fn set_p2_active(&mut self, value: bool)
        ensures
            final(self)@ == with_field(old(self)@, 3, 1, flag_bits(value)),
    {
        self.bits = put_flag(self.bits, 3, value);
    }

    /// Interrupt polarity.
    ///
    /// * `false` - interrupt is active high
    /// * `true` - interrupt is active low
    ///
    /// Bit 1.
    pub fn active_low(&self) -> (r: bool)
        ensures
            r == flag_of(self@, 1),
    {
        get_flag(self.bits, 1)
    }

    /// Returns the value with [`active_low`](Self::active_low) replaced by `value`.
    pub fn with_active_low(self, value: bool) -> (r: Self)
        ensures
            r@ == with_field(self@, 1, 1, flag_bits(value)),
    {
        ControlRegister6A { bits: put_flag(self.bits, 1, value) }
    }

    /// Sets [`active_low`](Self::active_low) to `value`.
    pub fn set_active_low(&mut self, value: bool)
        ensures
            final(self)@ == with_field(old(self)@, 1, 1, flag_bits(value)),
    {
        self.bits = put_flag(self.bits, 1, value);
    }
}

impl Default for ControlRegister6A {
    /// The power-on value, `0b0000_0000`.
    fn default() -> (r: Self)
        ensures
            r@ == 0b0000_0000,
    {
        Self::new()
    }
}

impl Register for ControlRegister6A {
    open spec fn raw_bits(&self) -> u8 {
        self@
    }

    closed spec fn spec_from_bits(bits: u8) -> Self {
        ControlRegister6A { bits }
    }

    open spec fn spec_device_address() -> u8 {
        DEFAULT_DEVICE_ADDRESS
    }

    open spec fn spec_register_address() -> u8 {
        RegisterAddress::CTRL_REG6_A.spec_addr()
    }

    fn device_address() -> (r: u8) {
        DEFAULT_DEVICE_ADDRESS
    }

    fn register_address() -> (r: u8) {
        RegisterAddress::CTRL_REG6_A.addr()
    }

    fn from_bits(bits: u8) -> (r: Self) {
        ControlRegister6A { bits }
    }

    fn to_bits(&self) -> (r: u8) {
        self.bits
    }

    proof fn lemma_round_trip(value: Self, bits: u8) {
    }
}

impl WritableRegister for ControlRegister6A {

}

/// `REFERENCE_A` (26h): reference acceleration for the high-pass filter output.
#[derive(Clone, Copy, Debug, PartialEq, Eq, Structural)]
pub struct ReferenceRegisterA {
    bits: u8,
}

impl View for ReferenceRegisterA {
    type V = u8;

    closed spec fn view(&self) -> u8 {
        self.bits
    }
}

impl ReferenceRegisterA {
    /// Creates the power-on value, `0b0000_0000`.
    pub fn new() -> (r: Self)
        ensures
            r@ == 0b0000_0000,
    {
        ReferenceRegisterA { bits: 0b0000_0000 }
    }

    /// Creates a value from the register byte.
    pub fn from_bits(bits: u8) -> (r: Self)
        ensures
            r@ == bits,
    {
        ReferenceRegisterA { bits }
    }

    /// Returns the register byte.
    pub fn into_bits(self) -> (r: u8)
        ensures
            r == self@,
    {
        self.bits
    }

    /// Reference value for interrupt generation.
    ///
    /// Bits 0..8.
    pub fn reference(&self) -> (r: u8)
        ensures
            r == self@,
    {
        self.bits
    }
}

impl Default for ReferenceRegisterA {
    /// The power-on value, `0b0000_0000`.
    fn default() -> (r: Self)
        ensures
            r@ == 0b0000_0000,
    {
        Self::new()
    }
}

impl Register for ReferenceRegisterA {
    open spec fn raw_bits(&self) -> u8 {
        self@
    }

    closed spec fn spec_from_bits(bits: u8) -> Self {
        ReferenceRegisterA { bits }
    }

    open spec fn spec_device_address() -> u8 {
        DEFAULT_DEVICE_ADDRESS
    }

    open spec fn spec_register_address() -> u8 {
        RegisterAddress::REFERENCE_A.spec_addr()
    }

    fn device_address() -> (r: u8) {
        DEFAULT_DEVICE_ADDRESS
    }

    fn register_address() -> (r: u8) {
        RegisterAddress::REFERENCE_A.addr()
    }

    fn from_bits(bits: u8) -> (r: Self) {
        ReferenceRegisterA { bits }
    }

    fn to_bits(&self) -> (r: u8) {
        self.bits
    }

    proof fn lemma_round_trip(value: Self, bits: u8) {
    }
}

impl WritableRegister for ReferenceRegisterA {

}

/// `STATUS_REG_A` (27h): data available and overrun flags.
#[derive(Clone, Copy, Debug, PartialEq, Eq, Structural)]
pub struct StatusRegisterA {
    bits: u8,
}

impl View for StatusRegisterA {
    type V = u8;

    closed spec fn view(&self) -> u8 {
        self.bits
    }
}

impl StatusRegisterA {
    /// Creates the power-on value, `0b0000_0000`.
    pub fn new() -> (r: Self)
        ensures
            r@ == 0b0000_0000,
    {
        StatusRegisterA { bits: 0b0000_0000 }
    }

    /// Creates a value from the register byte.
    pub fn from_bits(bits: u8) -> (r: Self)
        ensures
            r@ == bits,
    {
        StatusRegisterA { bits }
    }

    /// Returns the register byte.
    pub fn into_bits(self) -> (r: u8)
        ensures
            r == self@,
    {
        self.bits
    }

    /// X-, Y- and Z-axis data overrun.
    ///
    /// * `false` - no overrun has occurred
    /// * `true` - a new set of data has overwritten the previous data
    ///
    /// Bit 7.
    pub fn zyx_overrun(&self) -> (r: bool)
        ensures
            r == flag_of(self@, 7),
    {
        get_flag(self.bits, 7)
    }

    /// Z-axis data overrun.
    ///
    /// * `false` - no overrun has occurred
    /// * `true` - new Z-axis data has overwritten the previous data
    ///
    /// Bit 6.
    pub fn z_overrun(&self) -> (r: bool)
        ensures
            r == flag_of(self@, 6),
    {
        get_flag(self.bits, 6)
    }

    /// Y-axis data overrun.
    ///
    /// * `false` - no overrun has occurred
    /// * `true` - new Y-axis data has overwritten the previous data
    ///
    /// Bit 5.
    pub fn y_overrun(&self) -> (r: bool)
        ensures
            r == flag_of(self@, 5),
    {
        get_flag(self.bits, 5)
    }

    /// X-axis data overrun.
    ///
    /// * `false` - no overrun has occurred
    /// * `true` - new X-axis data has overwritten the previous data
    ///
    /// Bit 4.
    pub fn x_overrun(&self) -> (r: bool)
        ensures
            r == flag_of(self@, 4),
    {
        get_flag(self.bits, 4)
    }

    /// X-, Y- and Z-axis new data available.
    ///
    /// * `false` - a new set of data is not yet available
    /// * `true` - a new set of data is available
    ///
    /// Bit 3.
    pub fn xyz_data_available(&self) -> (r: bool)
        ensures
            r == flag_of(self@, 3),
    {
        get_flag(self.bits, 3)
    }

    /// Z-axis new data available.
    ///
    /// * `false` - new Z-axis data is not yet available
    /// * `true` - new Z-axis data is available
    ///
    /// Bit 2.
    pub fn z_data_available(&self) -> (r: bool)
        ensures
            r == flag_of(self@, 2),
    {
        get_flag(self.bits, 2)
    }

    /// Y-axis new data available.
    ///
    /// * `false` - new Y-axis data is not yet available
    /// * `true` - new Y-axis data is available
    ///
    /// Bit 1.
    pub fn y_data_available(&self) -> (r: bool)
        ensures
            r == flag_of(self@, 1),
    {
        get_flag(self.bits, 1)
    }

    /// X-axis new data available.
    ///
    /// * `false` - new X-axis data is not yet available
    /// * `true` - new X-axis data is available
    ///
    /// Bit 0.
    pub fn x_data_available(&self) -> (r: bool)
        ensures
            r == flag_of(self@, 0),
    {
        get_flag(self.bits, 0)
    }
}

impl Default for StatusRegisterA {
    /// The power-on value, `0b0000_0000`.
    fn default() -> (r: Self)
        ensures
            r@ == 0b0000_0000,
    {
        Self::new()
    }
}

impl Register for StatusRegisterA {
    open spec fn raw_bits(&self) -> u8 {
        self@
    }

    closed spec fn spec_from_bits(bits: u8) -> Self {
        StatusRegisterA { bits }
    }

    open spec fn spec_device_address() -> u8 {
        DEFAULT_DEVICE_ADDRESS
    }

    open spec fn spec_register_address() -> u8 {
        RegisterAddress::STATUS_REG_A.spec_addr()
    }

    fn device_address() -> (r: u8) {
        DEFAULT_DEVICE_ADDRESS
    }

    fn register_address() -> (r: u8) {
        RegisterAddress::STATUS_REG_A.addr()
    }

    fn from_bits(bits: u8) -> (r: Self) {
        StatusRegisterA { bits }
    }

    fn to_bits(&self) -> (r: u8) {
        self.bits
    }

    proof fn lemma_round_trip(value: Self, bits: u8) {
    }
}

/// `OUT_X_L_A` (28h)
///
/// Low byte of the 16-bit X-axis acceleration value. See [`OutXHighA`] for the
/// high byte.
///
/// The accelerometer outputs are little endian: the low byte has the lower
/// address and is read first. The magnetometer outputs are big endian.
#[derive(Clone, Copy, Debug, PartialEq, Eq, Structural)]
pub struct OutXLowA {
    bits: u8,
}

impl View for OutXLowA {
    type V = u8;

    closed spec fn view(&self) -> u8 {
        self.bits
    }
}

impl OutXLowA {
    /// Creates the power-on value, `0b0000_0000`.
    pub fn new() -> (r: Self)
        ensures
            r@ == 0b0000_0000,
    {
        OutXLowA { bits: 0b0000_0000 }
    }

    /// Creates a value from the register byte.
    pub fn from_bits(bits: u8) -> (r: Self)
        ensures
            r@ == bits,
    {
        OutXLowA { bits }
    }

    /// Returns the register byte.
    pub fn into_bits(self) -> (r: u8)
        ensures
            r == self@,
    {
        self.bits
    }

    /// Low byte of the X-axis value.
    ///
    /// Together with [`OutXHighA`] this forms a reading in two's complement.
    ///
    /// Bits 0..8.
    pub fn bits(&self) -> (r: u8)
        ensures
            r == self@,
    {
        self.bits
    }
}

impl Default for OutXLowA {
    /// The power-on value, `0b0000_0000`.
    fn default() -> (r: Self)
        ensures
            r@ == 0b0000_0000,
    {
        Self::new()
    }
}

impl Register for OutXLowA {
    open spec fn raw_bits(&self) -> u8 {
        self@
    }

    closed spec fn spec_from_bits(bits: u8) -> Self {
        OutXLowA { bits }
    }

    open spec fn spec_device_address() -> u8 {
        DEFAULT_DEVICE_ADDRESS
    }

    open spec fn spec_register_address() -> u8 {
        RegisterAddress::OUT_X_L_A.spec_addr()
    }

    fn device_address() -> (r: u8) {
        DEFAULT_DEVICE_ADDRESS
    }

    fn register_address() -> (r: u8) {
        RegisterAddress::OUT_X_L_A.addr()
    }

    fn from_bits(bits: u8) -> (r: Self) {
        OutXLowA { bits }
    }

    fn to_bits(&self) -> (r: u8) {
        self.bits
    }

    proof fn lemma_round_trip(value: Self, bits: u8) {
    }
}

/// `OUT_X_H_A` (29h)
///
/// High byte of the 16-bit X-axis acceleration value. See [`OutXLowA`] for the
/// low byte.
///
/// The accelerometer outputs are little endian: the low byte has the lower
/// address and is read first. The magnetometer outputs are big endian.
#[derive(Clone, Copy, Debug, PartialEq, Eq, Structural)]
pub struct OutXHighA {
    bits: u8,
}

impl View for OutXHighA {
    type V = u8;

    closed spec fn view(&self) -> u8 {
        self.bits
    }
}

impl OutXHighA {
    /// Creates the power-on value, `0b0000_0000`.
    pub fn new() -> (r: Self)
        ensures
            r@ == 0b0000_0000,
    {
        OutXHighA { bits: 0b0000_0000 }
    }

    /// Creates a value from the register byte.
    pub fn from_bits(bits: u8) -> (r: Self)
        ensures
            r@ == bits,
    {
        OutXHighA { bits }
    }

    /// Returns the register byte.
    pub fn into_bits(self) -> (r: u8)
        ensures
            r == self@,
    {
        self.bits
    }

    /// High byte of the X-axis value.
    ///
    /// Together with [`OutXLowA`] this forms a reading in two's complement.
    ///
    /// Bits 0..8.
    pub fn bits(&self) -> (r: u8)
        ensures
            r == self@,
    {
        self.bits
    }
}

impl Default for OutXHighA {
    /// The power-on value, `0b0000_0000`.
    fn default() -> (r: Self)
        ensures
            r@ == 0b0000_0000,
    {
        Self::new()
    }
}

impl Register for OutXHighA {
    open spec fn raw_bits(&self) -> u8 {
        self@
    }

    closed spec fn spec_from_bits(bits: u8) -> Self {
        OutXHighA { bits }
    }

    open spec fn spec_device_address() -> u8 {
        DEFAULT_DEVICE_ADDRESS
    }

    open spec fn spec_register_address() -> u8 {
        RegisterAddress::OUT_X_H_A.spec_addr()
    }

    fn device_address() -> (r: u8) {
        DEFAULT_DEVICE_ADDRESS
    }

    fn register_address() -> (r: u8) {
        RegisterAddress::OUT_X_H_A.addr()
    }

    fn from_bits(bits: u8) -> (r: Self) {
        OutXHighA { bits }
    }

    fn to_bits(&self) -> (r: u8) {
        self.bits
    }

    proof fn lemma_round_trip(value: Self, bits: u8) {
    }
}

/// `OUT_Y_L_A` (2Ah)
///
/// Low byte of the 16-bit Y-axis acceleration value. See [`OutYHighA`] for the
/// high byte.
///
/// The accelerometer outputs are little endian: the low byte has the lower
/// address and is read first. The magnetometer outputs are big endian.
#[derive(Clone, Copy, Debug, PartialEq, Eq, Structural)]
pub struct OutYLowA {
    bits: u8,
}

impl View for OutYLowA {
    type V = u8;

    closed spec fn view(&self) -> u8 {
        self.bits
    }
}

impl OutYLowA {
    /// Creates the power-on value, `0b0000_0000`.
    pub fn new() -> (r: Self)
        ensures
            r@ == 0b0000_0000,
    {
        OutYLowA { bits: 0b0000_0000 }
    }

    /// Creates a value from the register byte.
    pub fn from_bits(bits: u8) -> (r: Self)
        ensures
            r@ == bits,
    {
        OutYLowA { bits }
    }

    /// Returns the register byte.
    pub fn into_bits(self) -> (r: u8)
        ensures
            r == self@,
    {
        self.bits
    }

    /// Low byte of the Y-axis value.
    ///
    /// Together with [`OutYHighA`] this forms a reading in two's complement.
    ///
    /// Bits 0..8.
    pub fn bits(&self) -> (r: u8)
        ensures
            r == self@,
    {
        self.bits
    }
}

impl Default for OutYLowA {
    /// The power-on value, `0b0000_0000`.
    fn default() -> (r: Self)
        ensures
            r@ == 0b0000_0000,
    {
        Self::new()
    }
}

impl Register for OutYLowA {
    open spec fn raw_bits(&self) -> u8 {
        self@
    }

    closed spec fn spec_from_bits(bits: u8) -> Self {
        OutYLowA { bits }
    }

    open spec fn spec_device_address() -> u8 {
        DEFAULT_DEVICE_ADDRESS
    }

    open spec fn spec_register_address() -> u8 {
        RegisterAddress::OUT_Y_L_A.spec_addr()
    }

    fn device_address() -> (r: u8) {
        DEFAULT_DEVICE_ADDRESS
    }

    fn register_address() -> (r: u8) {
        RegisterAddress::OUT_Y_L_A.addr()
    }

    fn from_bits(bits: u8) -> (r: Self) {
        OutYLowA { bits }
    }

    fn to_bits(&self) -> (r: u8) {
        self.bits
    }

    proof fn lemma_round_trip(value: Self, bits: u8) {
    }
}

/// `OUT_Y_H_A` (2Bh)
///
/// High byte of the 16-bit Y-axis acceleration value. See [`OutYLowA`] for the
/// low byte.
///
/// The accelerometer outputs are little endian: the low byte has the lower
/// address and is read first. The magnetometer outputs are big endian.
#[derive(Clone, Copy, Debug, PartialEq, Eq, Structural)]
pub struct OutYHighA {
    bits: u8,
}

impl View for OutYHighA {
    type V = u8;

    closed spec fn view(&self) -> u8 {
        self.bits
    }
}

impl OutYHighA {
    /// Creates the power-on value, `0b0000_0000`.
    pub fn new() -> (r: Self)
        ensures
            r@ == 0b0000_0000,
    {
        OutYHighA { bits: 0b0000_0000 }
    }

    /// Creates a value from the register byte.
    pub fn from_bits(bits: u8) -> (r: Self)
        ensures
            r@ == bits,
    {
        OutYHighA { bits }
    }

    /// Returns the register byte.
    pub fn into_bits(self) -> (r: u8)
        ensures
            r == self@,
    {
        self.bits
    }

    /// High byte of the Y-axis value.
    ///
    /// Together with [`OutYLowA`] this forms a reading in two's complement.
    ///
    /// Bits 0..8.
    pub fn bits(&self) -> (r: u8)
        ensures
            r == self@,
    {
        self.bits
    }
}

impl Default for OutYHighA {
    /// The power-on value, `0b0000_0000`.
    fn default() -> (r: Self)
        ensures
            r@ == 0b0000_0000,
    {
        Self::new()
    }
}

impl Register for OutYHighA {
    open spec fn raw_bits(&self) -> u8 {
        self@
    }

    closed spec fn spec_from_bits(bits: u8) -> Self {
        OutYHighA { bits }
    }

    open spec fn spec_device_address() -> u8 {
        DEFAULT_DEVICE_ADDRESS
    }

    open spec fn spec_register_address() -> u8 {
        RegisterAddress::OUT_Y_H_A.spec_addr()
    }

    fn device_address() -> (r: u8) {
        DEFAULT_DEVICE_ADDRESS
    }

    fn register_address() -> (r: u8) {
        RegisterAddress::OUT_Y_H_A.addr()
    }

    fn from_bits(bits: u8) -> (r: Self) {
        OutYHighA { bits }
    }

    fn to_bits(&self) -> (r: u8) {
        self.bits
    }

    proof fn lemma_round_trip(value: Self, bits: u8) {
    }
}

/// `OUT_Z_L_A` (2Ch)
///
/// Low byte of the 16-bit Z-axis acceleration value. See [`OutZHighA`] for the
/// high byte.
///
/// The accelerometer outputs are little endian: the low byte has the lower
/// address and is read first. The magnetometer outputs are big endian.
#[derive(Clone, Copy, Debug, PartialEq, Eq, Structural)]
pub struct OutZLowA {
    bits: u8,
}

impl View for OutZLowA {
    type V = u8;

    closed spec fn view(&self) -> u8 {
        self.bits
    }
}

impl OutZLowA {
    /// Creates the power-on value, `0b0000_0000`.
    pub fn new() -> (r: Self)
        ensures
            r@ == 0b0000_0000,
    {
        OutZLowA { bits: 0b0000_0000 }
    }

    /// Creates a value from the register byte.
    pub fn from_bits(bits: u8) -> (r: Self)
        ensures
            r@ == bits,
    {
        OutZLowA { bits }
    }

    /// Returns the register byte.
    pub fn into_bits(self) -> (r: u8)
        ensures
            r == self@,
    {
        self.bits
    }

    /// Low byte of the Z-axis value.
    ///
    /// Together with [`OutZHighA`] this forms a reading in two's complement.
    ///
    /// Bits 0..8.
    pub fn bits(&self) -> (r: u8)
        ensures
            r == self@,
    {
        self.bits
    }
}

impl Default for OutZLowA {
    /// The power-on value, `0b0000_0000`.
    fn default() -> (r: Self)
        ensures
            r@ == 0b0000_0000,
    {
        Self::new()
    }
}

impl Register for OutZLowA {
    open spec fn raw_bits(&self) -> u8 {
        self@
    }

    closed spec fn spec_from_bits(bits: u8) -> Self {
        OutZLowA { bits }
    }

    open spec fn spec_device_address() -> u8 {
        DEFAULT_DEVICE_ADDRESS
    }

    open spec fn spec_register_address() -> u8 {
        RegisterAddress::OUT_Z_L_A.spec_addr()
    }

    fn device_address() -> (r: u8) {
        DEFAULT_DEVICE_ADDRESS
    }

    fn register_address() -> (r: u8) {
        RegisterAddress::OUT_Z_L_A.addr()
    }

    fn from_bits(bits: u8) -> (r: Self) {
        OutZLowA { bits }
    }

    fn to_bits(&self) -> (r: u8) {
        self.bits
    }

    proof fn lemma_round_trip(value: Self, bits: u8) {
    }
}

/// `OUT_Z_H_A` (2Dh)
///
/// High byte of the 16-bit Z-axis acceleration value. See [`OutZLowA`] for the
/// low byte.
///
/// The accelerometer outputs are little endian: the low byte has the lower
/// address and is read first. The magnetometer outputs are big endian.
#[derive(Clone, Copy, Debug, PartialEq, Eq, Structural)]
pub struct OutZHighA {
    bits: u8,
}

impl View for OutZHighA {
    type V = u8;

    closed spec fn view(&self) -> u8 {
        self.bits
    }
}

impl OutZHighA {
    /// Creates the power-on value, `0b0000_0000`.
    pub fn new() -> (r: Self)
        ensures
            r@ == 0b0000_0000,
    {
        OutZHighA { bits: 0b0000_0000 }
    }

    /// Creates a value from the register byte.
    pub fn from_bits(bits: u8) -> (r: Self)
        ensures
            r@ == bits,
    {
        OutZHighA { bits }
    }

    /// Returns the register byte.
    pub fn into_bits(self) -> (r: u8)
        ensures
            r == self@,
    {
        self.bits
    }

    /// High byte of the Z-axis value.
    ///
    /// Together with [`OutZLowA`] this forms a reading in two's complement.
    ///
    /// Bits 0..8.
    pub fn bits(&self) -> (r: u8)
        ensures
            r == self@,
    {
        self.bits
    }
}

impl Default for OutZHighA {
    /// The power-on value, `0b0000_0000`.
    fn default() -> (r: Self)
        ensures
            r@ == 0b0000_0000,
    {
        Self::new()
    }
}

impl Register for OutZHighA {
    open spec fn raw_bits(&self) -> u8 {
        self@
    }

    closed spec fn spec_from_bits(bits: u8) -> Self {
        OutZHighA { bits }
    }

    open spec fn spec_device_address() -> u8 {
        DEFAULT_DEVICE_ADDRESS
    }

    open spec fn spec_register_address() -> u8 {
        RegisterAddress::OUT_Z_H_A.spec_addr()
    }

    fn device_address() -> (r: u8) {
        DEFAULT_DEVICE_ADDRESS
    }

    fn register_address() -> (r: u8) {
        RegisterAddress::OUT_Z_H_A.addr()
    }

    fn from_bits(bits: u8) -> (r: Self) {
        OutZHighA { bits }
    }

    fn to_bits(&self) -> (r: u8) {
        self.bits
    }

    proof fn lemma_round_trip(value: Self, bits: u8) {
    }
}

/// `FIFO_CTRL_REG_A` (2Eh): FIFO configuration.
#[derive(Clone, Copy, Debug, PartialEq, Eq, Structural)]
pub struct FifoControlRegisterA {
    bits: u8,
}

impl View for FifoControlRegisterA {
    type V = u8;

    closed spec fn view(&self) -> u8 {
        self.bits
    }
}

impl FifoControlRegisterA {
    /// Creates the power-on value, `0b0000_0000`.
    pub fn new() -> (r: Self)
        ensures
            r@ == 0b0000_0000,
    {
        FifoControlRegisterA { bits: 0b0000_0000 }
    }

    /// Creates a value from the register byte.
    pub fn from_bits(bits: u8) -> (r: Self)
        ensures
            r@ == bits,
    {
        FifoControlRegisterA { bits }
    }

    /// Returns the register byte.
    pub fn into_bits(self) -> (r: u8)
        ensures
            r == self@,
    {
        self.bits
    }

    /// FIFO mode selection.
    ///
    /// Bits 6..8.
    pub fn fifo_mode(&self) -> (r: FifoMode)
        ensures
            r == FifoMode::spec_from_bits(field_of(self@, 6, 2)),
    {
        FifoMode::from_bits(get_field(self.bits, 6, 2))
    }

    /// Returns the value with [`fifo_mode`](Self::fifo_mode) replaced by `value`.
    pub fn with_fifo_mode(self, value: FifoMode) -> (r: Self)
        ensures
            r@ == with_field(self@, 6, 2, value.into_bits()),
    {
        FifoControlRegisterA { bits: put_field(self.bits, 6, 2, value.into_bits()) }
    }

    /// Sets [`fifo_mode`](Self::fifo_mode) to `value`.
    pub fn set_fifo_mode(&mut self, value: FifoMode)
        ensures
            final(self)@ == with_field(old(self)@, 6, 2, value.into_bits()),
    {
        self.bits = put_field(self.bits, 6, 2, value.into_bits());
    }

    /// Trigger selection.
    ///
    /// * `false` - trigger event linked to the trigger signal on `INT1`
    /// * `true` - trigger event linked to the trigger signal on `INT2`
    ///
    /// Bit 5.
    pub fn trigger_on_int2(&self) -> (r: bool)
        ensures
            r == flag_of(self@, 5),
    {
        get_flag(self.bits, 5)
    }

    /// Returns the value with [`trigger_on_int2`](Self::trigger_on_int2) replaced by `value`.
    pub fn with_trigger_on_int2(self, value: bool) -> (r: Self)
        ensures
            r@ == with_field(self@, 5, 1, flag_bits(value)),
    {
        FifoControlRegisterA { bits: put_flag(self.bits, 5, value) }
    }

    /// Sets [`trigger_on_int2`](Self::trigger_on_int2) to `value`.
    pub fn set_trigger_on_int2(&mut self, value: bool)
        ensures
            final(self)@ == with_field(old(self)@, 5, 1, flag_bits(value)),
    {
        self.bits = put_flag(self.bits, 5, value);
    }

    /// FIFO threshold.
    ///
    /// Bits 0..5.
    pub fn fth(&self) -> (r: u8)
        ensures
            r == field_of(self@, 0, 5),
    {
        get_field(self.bits, 0, 5)
    }

    /// Returns the value with [`fth`](Self::fth) replaced by `value`.
    pub fn with_fth(self, value: u8) -> (r: Self)
        requires
            value < 32,
        ensures
            r@ == with_field(self@, 0, 5, value),
    {
        FifoControlRegisterA { bits: put_field(self.bits, 0, 5, value) }
    }

    /// Sets [`fth`](Self::fth) to `value`.
    pub fn set_fth(&mut self, value: u8)
        requires
            value < 32,
        ensures
            final(self)@ == with_field(old(self)@, 0, 5, value),
    {
        self.bits = put_field(self.bits, 0, 5, value);
    }

    /// Returns the value with [`fth`](Self::fth) replaced by `value`, or
    /// [`InvalidField`] when `value` does not fit in 5 bits.
    pub fn with_fth_checked(self, value: u8) -> (r: Result<Self, InvalidField>)
        ensures
            match r {
                Ok(v) => value < 32 && v@ == with_field(self@, 0, 5, value),
                Err(_) => value >= 32,
            },
    {
        if value < 32 {
            Ok(self.with_fth(value))
        } else {
            Err(InvalidField)
        }
    }

    /// Sets [`fth`](Self::fth) to `value`; fails with [`InvalidField`], and
    /// changes nothing, when `value` does not fit in 5 bits.
    pub fn set_fth_checked(&mut self, value: u8) -> (r: Result<(), InvalidField>)
        ensures
            value < 32 ==> r is Ok && final(self)@ == with_field(old(self)@, 0, 5, value),
            value >= 32 ==> r is Err && *final(self) == *old(self),
    {
        if value < 32 {
            self.set_fth(value);
            Ok(())
        } else {
            Err(InvalidField)
        }
    }
}

impl Default for FifoControlRegisterA {
    /// The power-on value, `0b0000_0000`.
    fn default() -> (r: Self)
        ensures
            r@ == 0b0000_0000,
    {
        Self::new()
    }
}

impl Register for FifoControlRegisterA {
    open spec fn raw_bits(&self) -> u8 {
        self@
    }

    closed spec fn spec_from_bits(bits: u8) -> Self {
        FifoControlRegisterA { bits }
    }

    open spec fn spec_device_address() -> u8 {
        DEFAULT_DEVICE_ADDRESS
    }

    open spec fn spec_register_address() -> u8 {
        RegisterAddress::FIFO_CTRL_REG_A.spec_addr()
    }

    fn device_address() -> (r: u8) {
        DEFAULT_DEVICE_ADDRESS
    }

    fn register_address() -> (r: u8) {
        RegisterAddress::FIFO_CTRL_REG_A.addr()
    }

    fn from_bits(bits: u8) -> (r: Self) {
        FifoControlRegisterA { bits }
    }

    fn to_bits(&self) -> (r: u8) {
        self.bits
    }

    proof fn lemma_round_trip(value: Self, bits: u8) {
    }
}

impl WritableRegister for FifoControlRegisterA {

}

/// `FIFO_SRC_REG_A` (2Fh): FIFO status.
#[derive(Clone, Copy, Debug, PartialEq, Eq, Structural)]
pub struct FifoSourceRegisterA {
    bits: u8,
}

impl View for FifoSourceRegisterA {
    type V = u8;

    closed spec fn view(&self) -> u8 {
        self.bits
    }
}

impl FifoSourceRegisterA {
    /// Creates the power-on value, `0b0000_0000`.
    pub fn new() -> (r: Self)
        ensures
            r@ == 0b0000_0000,
    {
        FifoSourceRegisterA { bits: 0b0000_0000 }
    }

    /// Creates a value from the register byte.
    pub fn from_bits(bits: u8) -> (r: Self)
        ensures
            r@ == bits,
    {
        FifoSourceRegisterA { bits }
    }

    /// Returns the register byte.
    pub fn into_bits(self) -> (r: u8)
        ensures
            r == self@,
    {
        self.bits
    }

    /// FIFO content has reached the watermark level.
    ///
    /// Bit 7.
    pub fn wtm(&self) -> (r: bool)
        ensures
            r == flag_of(self@, 7),
    {
        get_flag(self.bits, 7)
    }

    /// FIFO is full and at least one sample was overwritten.
    ///
    /// Bit 6.
    pub fn ovrn_fifo(&self) -> (r: bool)
        ensures
            r == flag_of(self@, 6),
    {
        get_flag(self.bits, 6)
    }

    /// FIFO is empty.
    ///
    /// Bit 5.
    pub fn empty(&self) -> (r: bool)
        ensures
            r == flag_of(self@, 5),
    {
        get_flag(self.bits, 5)
    }

    /// Number of unread samples stored in the FIFO.
    ///
    /// Bits 0..5.
    pub fn fss(&self) -> (r: u8)
        ensures
            r == field_of(self@, 0, 5),
    {
        get_field(self.bits, 0, 5)
    }
}

impl Default for FifoSourceRegisterA {
    /// The power-on value, `0b0000_0000`.
    fn default() -> (r: Self)
        ensures
            r@ == 0b0000_0000,
    {
        Self::new()
    }
}

impl Register for FifoSourceRegisterA {
    open spec fn raw_bits(&self) -> u8 {
        self@
    }

    closed spec fn spec_from_bits(bits: u8) -> Self {
        FifoSourceRegisterA { bits }
    }

    open spec fn spec_device_address() -> u8 {
        DEFAULT_DEVICE_ADDRESS
    }

    open spec fn spec_register_address() -> u8 {
        RegisterAddress::FIFO_SRC_REG_A.spec_addr()
    }

    fn device_address() -> (r: u8) {
        DEFAULT_DEVICE_ADDRESS
    }

    fn register_address() -> (r: u8) {
        RegisterAddress::FIFO_SRC_REG_A.addr()
    }

    fn from_bits(bits: u8) -> (r: Self) {
        FifoSourceRegisterA { bits }
    }

    fn to_bits(&self) -> (r: u8) {
        self.bits
    }

    proof fn lemma_round_trip(value: Self, bits: u8) {
    }
}

/// `INT1_CFG_A` (30h): interrupt 1 configuration.
#[derive(Clone, Copy, Debug, PartialEq, Eq, Structural)]
pub struct Int1ConfigurationRegisterA {
    bits: u8,
}

impl View for Int1ConfigurationRegisterA {
    type V = u8;

    closed spec fn view(&self) -> u8 {
        self.bits
    }
}

impl Int1ConfigurationRegisterA {
    /// Creates the power-on value, `0b0000_0000`.
    pub fn new() -> (r: Self)
        ensures
            r@ == 0b0000_0000,
    {
        Int1ConfigurationRegisterA { bits: 0b0000_0000 }
    }

    /// Creates a value from the register byte.
    pub fn from_bits(bits: u8) -> (r: Self)
        ensures
            r@ == bits,
    {
        Int1ConfigurationRegisterA { bits }
    }

    /// Returns the register byte.
    pub fn into_bits(self) -> (r: u8)
        ensures
            r == self@,
    {
        self.bits
    }

    /// AND/OR combination of interrupt events.
    ///
    /// Bit 7.
    pub fn aoi(&self) -> (r: bool)
        ensures
            r == flag_of(self@, 7),
    {
        get_flag(self.bits, 7)
    }

    /// Returns the value with [`aoi`](Self::aoi) replaced by `value`.
    pub fn with_aoi(self, value: bool) -> (r: Self)
        ensures
            r@ == with_field(self@, 7, 1, flag_bits(value)),
    {
        Int1ConfigurationRegisterA { bits: put_flag(self.bits, 7, value) }
    }

    /// Sets [`aoi`](Self::aoi) to `value`.
    pub fn set_aoi(&mut self, value: bool)
        ensures
            final(self)@ == with_field(old(self)@, 7, 1, flag_bits(value)),
    {
        self.bits = put_flag(self.bits, 7, value);
    }

    /// 6-direction detection function enabled.
    ///
    /// Bit 6.
    pub fn six_d(&self) -> (r: bool)
        ensures
            r == flag_of(self@, 6),
    {
        get_flag(self.bits, 6)
    }

    /// Returns the value with [`six_d`](Self::six_d) replaced by `value`.
    pub fn with_six_d(self, value: bool) -> (r: Self)
        ensures
            r@ == with_field(self@, 6, 1, flag_bits(value)),
    {
        Int1ConfigurationRegisterA { bits: put_flag(self.bits, 6, value) }
    }

    /// Sets [`six_d`](Self::six_d) to `value`.
    pub fn set_six_d(&mut self, value: bool)
        ensures
            final(self)@ == with_field(old(self)@, 6, 1, flag_bits(value)),
    {
        self.bits = put_flag(self.bits, 6, value);
    }

    /// Enable interrupt generation on Z high event or on direction recognition.
    ///
    /// Bit 5.
    pub fn zhie_zupe(&self) -> (r: bool)
        ensures
            r == flag_of(self@, 5),
    {
        get_flag(self.bits, 5)
    }

    /// Returns the value with [`zhie_zupe`](Self::zhie_zupe) replaced by `value`.
    pub fn with_zhie_zupe(self, value: bool) -> (r: Self)
        ensures
            r@ == with_field(self@, 5, 1, flag_bits(value)),
    {
        Int1ConfigurationRegisterA { bits: put_flag(self.bits, 5, value) }
    }

    /// Sets [`zhie_zupe`](Self::zhie_zupe) to `value`.
    pub fn set_zhie_zupe(&mut self, value: bool)
        ensures
            final(self)@ == with_field(old(self)@, 5, 1, flag_bits(value)),
    {
        self.bits = put_flag(self.bits, 5, value);
    }

    /// Enable interrupt generation on Z low event or on direction recognition.
    ///
    /// Bit 4.
    pub fn zlie_zdowne(&self) -> (r: bool)
        ensures
            r == flag_of(self@, 4),
    {
        get_flag(self.bits, 4)
    }

    /// Returns the value with [`zlie_zdowne`](Self::zlie_zdowne) replaced by `value`.
    pub fn with_zlie_zdowne(self, value: bool) -> (r: Self)
        ensures
            r@ == with_field(self@, 4, 1, flag_bits(value)),
    {
        Int1ConfigurationRegisterA { bits: put_flag(self.bits, 4, value) }
    }

    /// Sets [`zlie_zdowne`](Self::zlie_zdowne) to `value`.
    pub fn set_zlie_zdowne(&mut self, value: bool)
        ensures
            final(self)@ == with_field(old(self)@, 4, 1, flag_bits(value)),
    {
        self.bits = put_flag(self.bits, 4, value);
    }

    /// Enable interrupt generation on Y high event or on direction recognition.
    ///
    /// Bit 3.
    pub fn yhie_yupe(&self) -> (r: bool)
        ensures
            r == flag_of(self@, 3),
    {
        get_flag(self.bits, 3)
    }

    /// Returns the value with [`yhie_yupe`](Self::yhie_yupe) replaced by `value`.
    pub fn with_yhie_yupe(self, value: bool) -> (r: Self)
        ensures
            r@ == with_field(self@, 3, 1, flag_bits(value)),
    {
        Int1ConfigurationRegisterA { bits: put_flag(self.bits, 3, value) }
    }

    /// Sets [`yhie_yupe`](Self::yhie_yupe) to `value`.
    pub fn set_yhie_yupe(&mut self, value: bool)
        ensures
            final(self)@ == with_field(old(self)@, 3, 1, flag_bits(value)),
    {
        self.bits = put_flag(self.bits, 3, value);
    }

    /// Enable interrupt generation on Y low event or on direction recognition.
    ///
    /// Bit 2.
    pub fn ylie_ydowne(&self) -> (r: bool)
        ensures
            r == flag_of(self@, 2),
    {
        get_flag(self.bits, 2)
    }

    /// Returns the value with [`ylie_ydowne`](Self::ylie_ydowne) replaced by `value`.
    pub fn with_ylie_ydowne(self, value: bool) -> (r: Self)
        ensures
            r@ == with_field(self@, 2, 1, flag_bits(value)),
    {
        Int1ConfigurationRegisterA { bits: put_flag(self.bits, 2, value) }
    }

    /// Sets [`ylie_ydowne`](Self::ylie_ydowne) to `value`.
    pub fn set_ylie_ydowne(&mut self, value: bool)
        ensures
            final(self)@ == with_field(old(self)@, 2, 1, flag_bits(value)),
    {
        self.bits = put_flag(self.bits, 2, value);
    }

    /// Enable interrupt generation on X high event or on direction recognition.
    ///
    /// Bit 1.
    pub fn xhie_xupe(&self) -> (r: bool)
        ensures
            r == flag_of(self@, 1),
    {
        get_flag(self.bits, 1)
    }

    /// Returns the value with [`xhie_xupe`](Self::xhie_xupe) replaced by `value`.
    pub fn with_xhie_xupe(self, value: bool) -> (r: Self)
        ensures
            r@ == with_field(self@, 1, 1, flag_bits(value)),
    {
        Int1ConfigurationRegisterA { bits: put_flag(self.bits, 1, value) }
    }

    /// Sets [`xhie_xupe`](Self::xhie_xupe) to `value`.
    pub fn set_xhie_xupe(&mut self, value: bool)
        ensures
            final(self)@ == with_field(old(self)@, 1, 1, flag_bits(value)),
    {
        self.bits = put_flag(self.bits, 1, value);
    }

    /// Enable interrupt generation on X low event or on direction recognition.
    ///
    /// Bit 0.
    pub fn xlie_xdowne(&self) -> (r: bool)
        ensures
            r == flag_of(self@, 0),
    {
        get_flag(self.bits, 0)
    }

    /// Returns the value with [`xlie_xdowne`](Self::xlie_xdowne) replaced by `value`.
    pub fn with_xlie_xdowne(self, value: bool) -> (r: Self)
        ensures
            r@ == with_field(self@, 0, 1, flag_bits(value)),
    {
        Int1ConfigurationRegisterA { bits: put_flag(self.bits, 0, value) }
    }

    /// Sets [`xlie_xdowne`](Self::xlie_xdowne) to `value`.
    pub fn set_xlie_xdowne(&mut self, value: bool)
        ensures
            final(self)@ == with_field(old(self)@, 0, 1, flag_bits(value)),
    {
        self.bits = put_flag(self.bits, 0, value);
    }
}

impl Default for Int1ConfigurationRegisterA {
    /// The power-on value, `0b0000_0000`.
    fn default() -> (r: Self)
        ensures
            r@ == 0b0000_0000,
    {
        Self::new()
    }
}

impl Register for Int1ConfigurationRegisterA {
    open spec fn raw_bits(&self) -> u8 {
        self@
    }

    closed spec fn spec_from_bits(bits: u8) -> Self {
        Int1ConfigurationRegisterA { bits }
    }

    open spec fn spec_device_address() -> u8 {
        DEFAULT_DEVICE_ADDRESS
    }

    open spec fn spec_register_address() -> u8 {
        RegisterAddress::INT1_CFG_A.spec_addr()
    }

    fn device_address() -> (r: u8) {
        DEFAULT_DEVICE_ADDRESS
    }

    fn register_address() -> (r: u8) {
        RegisterAddress::INT1_CFG_A.addr()
    }

    fn from_bits(bits: u8) -> (r: Self) {
        Int1ConfigurationRegisterA { bits }
    }

    fn to_bits(&self) -> (r: u8) {
        self.bits
    }

    proof fn lemma_round_trip(value: Self, bits: u8) {
    }
}

impl WritableRegister for Int1ConfigurationRegisterA {

}

/// `INT1_SRC_A` (31h): interrupt 1 source.
#[derive(Clone, Copy, Debug, PartialEq, Eq, Structural)]
pub struct Int1SourceRegisterA {
    bits: u8,
}

impl View for Int1SourceRegisterA {
    type V = u8;

    closed spec fn view(&self) -> u8 {
        self.bits
    }
}

impl Int1SourceRegisterA {
    /// Creates the power-on value, `0b0000_0000`.
    pub fn new() -> (r: Self)
        ensures
            r@ == 0b0000_0000,
    {
        Int1SourceRegisterA { bits: 0b0000_0000 }
    }

    /// Creates a value from the register byte.
    pub fn from_bits(bits: u8) -> (r: Self)
        ensures
            r@ == bits,
    {
        Int1SourceRegisterA { bits }
    }

    /// Returns the register byte.
    pub fn into_bits(self) -> (r: u8)
        ensures
            r == self@,
    {
        self.bits
    }

    /// Interrupt active.
    ///
    /// Bit 6.
    pub fn ia(&self) -> (r: bool)
        ensures
            r == flag_of(self@, 6),
    {
        get_flag(self.bits, 6)
    }

    /// Z high.
    ///
    /// Bit 5.
    pub fn z_high(&self) -> (r: bool)
        ensures
            r == flag_of(self@, 5),
    {
        get_flag(self.bits, 5)
    }

    /// Z low.
    ///
    /// Bit 4.
    pub fn z_low(&self) -> (r: bool)
        ensures
            r == flag_of(self@, 4),
    {
        get_flag(self.bits, 4)
    }

    /// Y high.
    ///
    /// Bit 3.
    pub fn y_high(&self) -> (r: bool)
        ensures
            r == flag_of(self@, 3),
    {
        get_flag(self.bits, 3)
    }

    /// Y low.
    ///
    /// Bit 2.
    pub fn y_low(&self) -> (r: bool)
        ensures
            r == flag_of(self@, 2),
    {
        get_flag(self.bits, 2)
    }

    /// X high.
    ///
    /// Bit 1.
    pub fn x_high(&self) -> (r: bool)
        ensures
            r == flag_of(self@, 1),
    {
        get_flag(self.bits, 1)
    }

    /// X low.
    ///
    /// Bit 0.
    pub fn x_low(&self) -> (r: bool)
        ensures
            r == flag_of(self@, 0),
    {
        get_flag(self.bits, 0)
    }
}

impl Default for Int1SourceRegisterA {
    /// The power-on value, `0b0000_0000`.
    fn default() -> (r: Self)
        ensures
            r@ == 0b0000_0000,
    {
        Self::new()
    }
}

impl Register for Int1SourceRegisterA {
    open spec fn raw_bits(&self) -> u8 {
        self@
    }

    closed spec fn spec_from_bits(bits: u8) -> Self {
        Int1SourceRegisterA { bits }
    }

    open spec fn spec_device_address() -> u8 {
        DEFAULT_DEVICE_ADDRESS
    }

    open spec fn spec_register_address() -> u8 {
        RegisterAddress::INT1_SRC_A.spec_addr()
    }

    fn device_address() -> (r: u8) {
        DEFAULT_DEVICE_ADDRESS
    }

    fn register_address() -> (r: u8) {
        RegisterAddress::INT1_SRC_A.addr()
    }

    fn from_bits(bits: u8) -> (r: Self) {
        Int1SourceRegisterA { bits }
    }

    fn to_bits(&self) -> (r: u8) {
        self.bits
    }

    proof fn lemma_round_trip(value: Self, bits: u8) {
    }
}

/// `INT1_THS_A` (32h): interrupt 1 threshold.
#[derive(Clone, Copy, Debug, PartialEq, Eq, Structural)]
pub struct Int1ThresholdRegisterA {
    bits: u8,
}

impl View for Int1ThresholdRegisterA {
    type V = u8;

    closed spec fn view(&self) -> u8 {
        self.bits
    }
}

impl Int1ThresholdRegisterA {
    /// Creates the power-on value, `0b0000_0000`.
    pub fn new() -> (r: Self)
        ensures
            r@ == 0b0000_0000,
    {
        Int1ThresholdRegisterA { bits: 0b0000_0000 }
    }

    /// Creates a value from the register byte.
    pub fn from_bits(bits: u8) -> (r: Self)
        ensures
            r@ == bits,
    {
        Int1ThresholdRegisterA { bits }
    }

    /// Returns the register byte.
    pub fn into_bits(self) -> (r: u8)
        ensures
            r == self@,
    {
        self.bits
    }

    /// Interrupt 1 threshold.
    ///
    /// Bits 0..7.
    pub fn threshold(&self) -> (r: u8)
        ensures
            r == field_of(self@, 0, 7),
    {
        get_field(self.bits, 0, 7)
    }

    /// Returns the value with [`threshold`](Self::threshold) replaced by `value`.
    pub fn with_threshold(self, value: u8) -> (r: Self)
        requires
            value < 128,
        ensures
            r@ == with_field(self@, 0, 7, value),
    {
        Int1ThresholdRegisterA { bits: put_field(self.bits, 0, 7, value) }
    }

    /// Sets [`threshold`](Self::threshold) to `value`.
    pub fn set_threshold(&mut self, value: u8)
        requires
            value < 128,
        ensures
            final(self)@ == with_field(old(self)@, 0, 7, value),
    {
        self.bits = put_field(self.bits, 0, 7, value);
    }

    /// Returns the value with [`threshold`](Self::threshold) replaced by `value`, or
    /// [`InvalidField`] when `value` does not fit in 7 bits.
    pub fn with_threshold_checked(self, value: u8) -> (r: Result<Self, InvalidField>)
        ensures
            match r {
                Ok(v) => value < 128 && v@ == with_field(self@, 0, 7, value),
                Err(_) => value >= 128,
            },
    {
        if value < 128 {
            Ok(self.with_threshold(value))
        } else {
            Err(InvalidField)
        }
    }

    /// Sets [`threshold`](Self::threshold) to `value`; fails with [`InvalidField`], and
    /// changes nothing, when `value` does not fit in 7 bits.
    pub fn set_threshold_checked(&mut self, value: u8) -> (r: Result<(), InvalidField>)
        ensures
            value < 128 ==> r is Ok && final(self)@ == with_field(old(self)@, 0, 7, value),
            value >= 128 ==> r is Err && *final(self) == *old(self),
    {
        if value < 128 {
            self.set_threshold(value);
            Ok(())
        } else {
            Err(InvalidField)
        }
    }
}

impl Default for Int1ThresholdRegisterA {
    /// The power-on value, `0b0000_0000`.
    fn default() -> (r: Self)
        ensures
            r@ == 0b0000_0000,
    {
        Self::new()
    }
}

impl Register for Int1ThresholdRegisterA {
    open spec fn raw_bits(&self) -> u8 {
        self@
    }

    closed spec fn spec_from_bits(bits: u8) -> Self {
        Int1ThresholdRegisterA { bits }
    }

    open spec fn spec_device_address() -> u8 {
        DEFAULT_DEVICE_ADDRESS
    }

    open spec fn spec_register_address() -> u8 {
        RegisterAddress::INT1_THS_A.spec_addr()
    }

    fn device_address() -> (r: u8) {
        DEFAULT_DEVICE_ADDRESS
    }

    fn register_address() -> (r: u8) {
        RegisterAddress::INT1_THS_A.addr()
    }

    fn from_bits(bits: u8) -> (r: Self) {
        Int1ThresholdRegisterA { bits }
    }

    fn to_bits(&self) -> (r: u8) {
        self.bits
    }

    proof fn lemma_round_trip(value: Self, bits: u8) {
    }
}

impl WritableRegister for Int1ThresholdRegisterA {

}

/// `INT1_DURATION_A` (33h): interrupt 1 duration.
#[derive(Clone, Copy, Debug, PartialEq, Eq, Structural)]
pub struct Int1DurationRegisterA {
    bits: u8,
}

impl View for Int1DurationRegisterA {
    type V = u8;

    closed spec fn view(&self) -> u8 {
        self.bits
    }
}

impl Int1DurationRegisterA {
    /// Creates the power-on value, `0b0000_0000`.
    pub fn new() -> (r: Self)
        ensures
            r@ == 0b0000_0000,
    {
        Int1DurationRegisterA { bits: 0b0000_0000 }
    }

    /// Creates a value from the register byte.
    pub fn from_bits(bits: u8) -> (r: Self)
        ensures
            r@ == bits,
    {
        Int1DurationRegisterA { bits }
    }

    /// Returns the register byte.
    pub fn into_bits(self) -> (r: u8)
        ensures
            r == self@,
    {
        self.bits
    }

    /// The minimum duration of the interrupt 1 event to be recognized. Duration
    /// steps and maximum values depend on the data rate.
    ///
    /// Bits 0..7.
    pub fn duration(&self) -> (r: u8)
        ensures
            r == field_of(self@, 0, 7),
    {
        get_field(self.bits, 0, 7)
    }

    /// Returns the value with [`duration`](Self::duration) replaced by `value`.
    pub fn with_duration(self, value: u8) -> (r: Self)
        requires
            value < 128,
        ensures
            r@ == with_field(self@, 0, 7, value),
    {
        Int1DurationRegisterA { bits: put_field(self.bits, 0, 7, value) }
    }

    /// Sets [`duration`](Self::duration) to `value`.
    pub fn set_duration(&mut self, value: u8)
        requires
            value < 128,
        ensures
            final(self)@ == with_field(old(self)@, 0, 7, value),
    {
        self.bits = put_field(self.bits, 0, 7, value);
    }

    /// Returns the value with [`duration`](Self::duration) replaced by `value`, or
    /// [`InvalidField`] when `value` does not fit in 7 bits.
    pub fn with_duration_checked(self, value: u8) -> (r: Result<Self, InvalidField>)
        ensures
            match r {
                Ok(v) => value < 128 && v@ == with_field(self@, 0, 7, value),
                Err(_) => value >= 128,
            },
    {
        if value < 128 {
            Ok(self.with_duration(value))
        } else {
            Err(InvalidField)
        }
    }

    /// Sets [`duration`](Self::duration) to `value`; fails with [`InvalidField`], and
    /// changes nothing, when `value` does not fit in 7 bits.
    pub fn set_duration_checked(&mut self, value: u8) -> (r: Result<(), InvalidField>)
        ensures
            value < 128 ==> r is Ok && final(self)@ == with_field(old(self)@, 0, 7, value),
            value >= 128 ==> r is Err && *final(self) == *old(self),
    {
        if value < 128 {
            self.set_duration(value);
            Ok(())
        } else {
            Err(InvalidField)
        }
    }
}

impl Default for Int1DurationRegisterA {
    /// The power-on value, `0b0000_0000`.
    fn default() -> (r: Self)
        ensures
            r@ == 0b0000_0000,
    {
        Self::new()
    }
}

impl Register for Int1DurationRegisterA {
    open spec fn raw_bits(&self) -> u8 {
        self@
    }

    closed spec fn spec_from_bits(bits: u8) -> Self {
        Int1DurationRegisterA { bits }
    }

    open spec fn spec_device_address() -> u8 {
        DEFAULT_DEVICE_ADDRESS
    }

    open spec fn spec_register_address() -> u8 {
        RegisterAddress::INT1_DURATION_A.spec_addr()
    }

    fn device_address() -> (r: u8) {
        DEFAULT_DEVICE_ADDRESS
    }

    fn register_address() -> (r: u8) {
        RegisterAddress::INT1_DURATION_A.addr()
    }

    fn from_bits(bits: u8) -> (r: Self) {
        Int1DurationRegisterA { bits }
    }

    fn to_bits(&self) -> (r: u8) {
        self.bits
    }

    proof fn lemma_round_trip(value: Self, bits: u8) {
    }
}

impl WritableRegister for Int1DurationRegisterA {

}

/// `INT2_CFG_A` (34h): interrupt 2 configuration.
#[derive(Clone, Copy, Debug, PartialEq, Eq, Structural)]
pub struct Int2ConfigurationRegisterA {
    bits: u8,
}

impl View for Int2ConfigurationRegisterA {
    type V = u8;

    closed spec fn view(&self) -> u8 {
        self.bits
    }
}

impl Int2ConfigurationRegisterA {
    /// Creates the power-on value, `0b0000_0000`.
    pub fn new() -> (r: Self)
        ensures
            r@ == 0b0000_0000,
    {
        Int2ConfigurationRegisterA { bits: 0b0000_0000 }
    }

    /// Creates a value from the register byte.
    pub fn from_bits(bits: u8) -> (r: Self)
        ensures
            r@ == bits,
    {
        Int2ConfigurationRegisterA { bits }
    }

    /// Returns the register byte.
    pub fn into_bits(self) -> (r: u8)
        ensures
            r == self@,
    {
        self.bits
    }

    /// AND/OR combination of interrupt events.
    ///
    /// Bit 7.
    pub fn aoi(&self) -> (r: bool)
        ensures
            r == flag_of(self@, 7),
    {
        get_flag(self.bits, 7)
    }

    /// Returns the value with [`aoi`](Self::aoi) replaced by `value`.
    pub fn with_aoi(self, value: bool) -> (r: Self)
        ensures
            r@ == with_field(self@, 7, 1, flag_bits(value)),
    {
        Int2ConfigurationRegisterA { bits: put_flag(self.bits, 7, value) }
    }

    /// Sets [`aoi`](Self::aoi) to `value`.
    pub fn set_aoi(&mut self, value: bool)
        ensures
            final(self)@ == with_field(old(self)@, 7, 1, flag_bits(value)),
    {
        self.bits = put_flag(self.bits, 7, value);
    }

    /// 6-direction detection function enabled.
    ///
    /// Bit 6.
    pub fn six_d(&self) -> (r: bool)
        ensures
            r == flag_of(self@, 6),
    {
        get_flag(self.bits, 6)
    }

    /// Returns the value with [`six_d`](Self::six_d) replaced by `value`.
    pub fn with_six_d(self, value: bool) -> (r: Self)
        ensures
            r@ == with_field(self@, 6, 1, flag_bits(value)),
    {
        Int2ConfigurationRegisterA { bits: put_flag(self.bits, 6, value) }
    }

    /// Sets [`six_d`](Self::six_d) to `value`.
    pub fn set_six_d(&mut self, value: bool)
        ensures
            final(self)@ == with_field(old(self)@, 6, 1, flag_bits(value)),
    {
        self.bits = put_flag(self.bits, 6, value);
    }

    /// Enable interrupt generation on Z high event.
    ///
    /// * `false` - disable interrupt request
    /// * `true` - enable interrupt request on measured accel. value higher than preset threshold
    ///
    /// Bit 5.
    pub fn zhie(&self) -> (r: bool)
        ensures
            r == flag_of(self@, 5),
    {
        get_flag(self.bits, 5)
    }

    /// Returns the value with [`zhie`](Self::zhie) replaced by `value`.
    pub fn with_zhie(self, value: bool) -> (r: Self)
        ensures
            r@ == with_field(self@, 5, 1, flag_bits(value)),
    {
        Int2ConfigurationRegisterA { bits: put_flag(self.bits, 5, value) }
    }

    /// Sets [`zhie`](Self::zhie) to `value`.
    pub fn set_zhie(&mut self, value: bool)
        ensures
            final(self)@ == with_field(old(self)@, 5, 1, flag_bits(value)),
    {
        self.bits = put_flag(self.bits, 5, value);
    }

    /// Enable interrupt generation on Z low event.
    ///
    /// * `false` - disable interrupt request
    /// * `true` - enable interrupt request on measured accel. value lower than preset threshold
    ///
    /// Bit 4.
    pub fn zlie(&self) -> (r: bool)
        ensures
            r == flag_of(self@, 4),
    {
        get_flag(self.bits, 4)
    }

    /// Returns the value with [`zlie`](Self::zlie) replaced by `value`.
    pub fn with_zlie(self, value: bool) -> (r: Self)
        ensures
            r@ == with_field(self@, 4, 1, flag_bits(value)),
    {
        Int2ConfigurationRegisterA { bits: put_flag(self.bits, 4, value) }
    }

    /// Sets [`zlie`](Self::zlie) to `value`.
    pub fn set_zlie(&mut self, value: bool)
        ensures
            final(self)@ == with_field(old(self)@, 4, 1, flag_bits(value)),
    {
        self.bits = put_flag(self.bits, 4, value);
    }

    /// Enable interrupt generation on Y high event.
    ///
    /// * `false` - disable interrupt request
    /// * `true` - enable interrupt request on measured accel. value higher than preset threshold
    ///
    /// Bit 3.
    pub fn yhie(&self) -> (r: bool)
        ensures
            r == flag_of(self@, 3),
    {
        get_flag(self.bits, 3)
    }

    /// Returns the value with [`yhie`](Self::yhie) replaced by `value`.
    pub fn with_yhie(self, value: bool) -> (r: Self)
        ensures
            r@ == with_field(self@, 3, 1, flag_bits(value)),
    {
        Int2ConfigurationRegisterA { bits: put_flag(self.bits, 3, value) }
    }

    /// Sets [`yhie`](Self::yhie) to `value`.
    pub fn set_yhie(&mut self, value: bool)
        ensures
            final(self)@ == with_field(old(self)@, 3, 1, flag_bits(value)),
    {
        self.bits = put_flag(self.bits, 3, value);
    }

    /// Enable interrupt generation on Y low event.
    ///
    /// * `false` - disable interrupt request
    /// * `true` - enable interrupt request on measured accel. value lower than preset threshold
    ///
    /// Bit 2.
    pub fn ylie(&self) -> (r: bool)
        ensures
            r == flag_of(self@, 2),
    {
        get_flag(self.bits, 2)
    }

    /// Returns the value with [`ylie`](Self::ylie) replaced by `value`.
    pub fn with_ylie(self, value: bool) -> (r: Self)
        ensures
            r@ == with_field(self@, 2, 1, flag_bits(value)),
    {
        Int2ConfigurationRegisterA { bits: put_flag(self.bits, 2, value) }
    }

    /// Sets [`ylie`](Self::ylie) to `value`.
    pub fn set_ylie(&mut self, value: bool)
        ensures
            final(self)@ == with_field(old(self)@, 2, 1, flag_bits(value)),
    {
        self.bits = put_flag(self.bits, 2, value);
    }

    /// Enable interrupt generation on X high event.
    ///
    /// * `false` - disable interrupt request
    /// * `true` - enable interrupt request on measured accel. value higher than preset threshold
    ///
    /// Bit 1.
    pub fn xhie(&self) -> (r: bool)
        ensures
            r == flag_of(self@, 1),
    {
        get_flag(self.bits, 1)
    }

    /// Returns the value with [`xhie`](Self::xhie) replaced by `value`.
    pub fn with_xhie(self, value: bool) -> (r: Self)
        ensures
            r@ == with_field(self@, 1, 1, flag_bits(value)),
    {
        Int2ConfigurationRegisterA { bits: put_flag(self.bits, 1, value) }
    }

    /// Sets [`xhie`](Self::xhie) to `value`.
    pub fn set_xhie(&mut self, value: bool)
        ensures
            final(self)@ == with_field(old(self)@, 1, 1, flag_bits(value)),
    {
        self.bits = put_flag(self.bits, 1, value);
    }

    /// Enable interrupt generation on X low event.
    ///
    /// * `false` - disable interrupt request
    /// * `true` - enable interrupt request on measured accel. value lower than preset threshold
    ///
    /// Bit 0.
    pub fn xlie(&self) -> (r: bool)
        ensures
            r == flag_of(self@, 0),
    {
        get_flag(self.bits, 0)
    }

    /// Returns the value with [`xlie`](Self::xlie) replaced by `value`.
    pub fn with_xlie(self, value: bool) -> (r: Self)
        ensures
            r@ == with_field(self@, 0, 1, flag_bits(value)),
    {
        Int2ConfigurationRegisterA { bits: put_flag(self.bits, 0, value) }
    }

    /// Sets [`xlie`](Self::xlie) to `value`.
    pub fn set_xlie(&mut self, value: bool)
        ensures
            final(self)@ == with_field(old(self)@, 0, 1, flag_bits(value)),
    {
        self.bits = put_flag(self.bits, 0, value);
    }
}

impl Default for Int2ConfigurationRegisterA {
    /// The power-on value, `0b0000_0000`.
    fn default() -> (r: Self)
        ensures
            r@ == 0b0000_0000,
    {
        Self::new()
    }
}

impl Register for Int2ConfigurationRegisterA {
    open spec fn raw_bits(&self) -> u8 {
        self@
    }

    closed spec fn spec_from_bits(bits: u8) -> Self {
        Int2ConfigurationRegisterA { bits }
    }

    open spec fn spec_device_address() -> u8 {
        DEFAULT_DEVICE_ADDRESS
    }

    open spec fn spec_register_address() -> u8 {
        RegisterAddress::INT2_CFG_A.spec_addr()
    }

    fn device_address() -> (r: u8) {
        DEFAULT_DEVICE_ADDRESS
    }

    fn register_address() -> (r: u8) {
        RegisterAddress::INT2_CFG_A.addr()
    }

    fn from_bits(bits: u8) -> (r: Self) {
        Int2ConfigurationRegisterA { bits }
    }

    fn to_bits(&self) -> (r: u8) {
        self.bits
    }

    proof fn lemma_round_trip(value: Self, bits: u8) {
    }
}

impl WritableRegister for Int2ConfigurationRegisterA {

}

/// `INT2_SRC_A` (35h): interrupt 2 source.
#[derive(Clone, Copy, Debug, PartialEq, Eq, Structural)]
pub struct Int2SourceRegisterA {
    bits: u8,
}

impl View for Int2SourceRegisterA {
    type V = u8;

    closed spec fn view(&self) -> u8 {
        self.bits
    }
}

impl Int2SourceRegisterA {
    /// Creates the power-on value, `0b0000_0000`.
    pub fn new() -> (r: Self)
        ensures
            r@ == 0b0000_0000,
    {
        Int2SourceRegisterA { bits: 0b0000_0000 }
    }

    /// Creates a value from the register byte.
    pub fn from_bits(bits: u8) -> (r: Self)
        ensures
            r@ == bits,
    {
        Int2SourceRegisterA { bits }
    }

    /// Returns the register byte.
    pub fn into_bits(self) -> (r: u8)
        ensures
            r == self@,
    {
        self.bits
    }

    /// Interrupt active.
    ///
    /// Bit 6.
    pub fn ia(&self) -> (r: bool)
        ensures
            r == flag_of(self@, 6),
    {
        get_flag(self.bits, 6)
    }

    /// Z high.
    ///
    /// Bit 5.
    pub fn z_high(&self) -> (r: bool)
        ensures
            r == flag_of(self@, 5),
    {
        get_flag(self.bits, 5)
    }

    /// Z low.
    ///
    /// Bit 4.
    pub fn z_low(&self) -> (r: bool)
        ensures
            r == flag_of(self@, 4),
    {
        get_flag(self.bits, 4)
    }

    /// Y high.
    ///
    /// Bit 3.
    pub fn y_high(&self) -> (r: bool)
        ensures
            r == flag_of(self@, 3),
    {
        get_flag(self.bits, 3)
    }

    /// Y low.
    ///
    /// Bit 2.
    pub fn y_low(&self) -> (r: bool)
        ensures
            r == flag_of(self@, 2),
    {
        get_flag(self.bits, 2)
    }

    /// X high.
    ///
    /// Bit 1.
    pub fn x_high(&self) -> (r: bool)
        ensures
            r == flag_of(self@, 1),
    {
        get_flag(self.bits, 1)
    }

    /// X low.
    ///
    /// Bit 0.
    pub fn x_low(&self) -> (r: bool)
        ensures
            r == flag_of(self@, 0),
    {
        get_flag(self.bits, 0)
    }
}

impl Default for Int2SourceRegisterA {
    /// The power-on value, `0b0000_0000`.
    fn default() -> (r: Self)
        ensures
            r@ == 0b0000_0000,
    {
        Self::new()
    }
}

impl Register for Int2SourceRegisterA {
    open spec fn raw_bits(&self) -> u8 {
        self@
    }

    closed spec fn spec_from_bits(bits: u8) -> Self {
        Int2SourceRegisterA { bits }
    }

    open spec fn spec_device_address() -> u8 {
        DEFAULT_DEVICE_ADDRESS
    }

    open spec fn spec_register_address() -> u8 {
        RegisterAddress::INT2_SRC_A.spec_addr()
    }

    fn device_address() -> (r: u8) {
        DEFAULT_DEVICE_ADDRESS
    }

    fn register_address() -> (r: u8) {
        RegisterAddress::INT2_SRC_A.addr()
    }

    fn from_bits(bits: u8) -> (r: Self) {
        Int2SourceRegisterA { bits }
    }

    fn to_bits(&self) -> (r: u8) {
        self.bits
    }

    proof fn lemma_round_trip(value: Self, bits: u8) {
    }
}

/// `INT2_THS_A` (36h): interrupt 2 threshold.
#[derive(Clone, Copy, Debug, PartialEq, Eq, Structural)]
pub struct Int2ThresholdRegisterA {
    bits: u8,
}

impl View for Int2ThresholdRegisterA {
    type V = u8;

    closed spec fn view(&self) -> u8 {
        self.bits
    }
}

impl Int2ThresholdRegisterA {
    /// Creates the power-on value, `0b0000_0000`.
    pub fn new() -> (r: Self)
        ensures
            r@ == 0b0000_0000,
    {
        Int2ThresholdRegisterA { bits: 0b0000_0000 }
    }

    /// Creates a value from the register byte.
    pub fn from_bits(bits: u8) -> (r: Self)
        ensures
            r@ == bits,
    {
        Int2ThresholdRegisterA { bits }
    }

    /// Returns the register byte.
    pub fn into_bits(self) -> (r: u8)
        ensures
            r == self@,
    {
        self.bits
    }

    /// Interrupt 2 threshold.
    ///
    /// Bits 0..7.
    pub fn threshold(&self) -> (r: u8)
        ensures
            r == field_of(self@, 0, 7),
    {
        get_field(self.bits, 0, 7)
    }

    /// Returns the value with [`threshold`](Self::threshold) replaced by `value`.
    pub fn with_threshold(self, value: u8) -> (r: Self)
        requires
            value < 128,
        ensures
            r@ == with_field(self@, 0, 7, value),
    {
        Int2ThresholdRegisterA { bits: put_field(self.bits, 0, 7, value) }
    }

    /// Sets [`threshold`](Self::threshold) to `value`.
    pub fn set_threshold(&mut self, value: u8)
        requires
            value < 128,
        ensures
            final(self)@ == with_field(old(self)@, 0, 7, value),
    {
        self.bits = put_field(self.bits, 0, 7, value);
    }

    /// Returns the value with [`threshold`](Self::threshold) replaced by `value`, or
    /// [`InvalidField`] when `value` does not fit in 7 bits.
    pub fn with_threshold_checked(self, value: u8) -> (r: Result<Self, InvalidField>)
        ensures
            match r {
                Ok(v) => value < 128 && v@ == with_field(self@, 0, 7, value),
                Err(_) => value >= 128,
            },
    {
        if value < 128 {
            Ok(self.with_threshold(value))
        } else {
            Err(InvalidField)
        }
    }

    /// Sets [`threshold`](Self::threshold) to `value`; fails with [`InvalidField`], and
    /// changes nothing, when `value` does not fit in 7 bits.
    pub fn set_threshold_checked(&mut self, value: u8) -> (r: Result<(), InvalidField>)
        ensures
            value < 128 ==> r is Ok && final(self)@ == with_field(old(self)@, 0, 7, value),
            value >= 128 ==> r is Err && *final(self) == *old(self),
    {
        if value < 128 {
            self.set_threshold(value);
            Ok(())
        } else {
            Err(InvalidField)
        }
    }
}

impl Default for Int2ThresholdRegisterA {
    /// The power-on value, `0b0000_0000`.
    fn default() -> (r: Self)
        ensures
            r@ == 0b0000_0000,
    {
        Self::new()
    }
}

impl Register for Int2ThresholdRegisterA {
    open spec fn raw_bits(&self) -> u8 {
        self@
    }

    closed spec fn spec_from_bits(bits: u8) -> Self {
        Int2ThresholdRegisterA { bits }
    }

    open spec fn spec_device_address() -> u8 {
        DEFAULT_DEVICE_ADDRESS
    }

    open spec fn spec_register_address() -> u8 {
        RegisterAddress::INT2_THS_A.spec_addr()
    }

    fn device_address() -> (r: u8) {
        DEFAULT_DEVICE_ADDRESS
    }

    fn register_address() -> (r: u8) {
        RegisterAddress::INT2_THS_A.addr()
    }

    fn from_bits(bits: u8) -> (r: Self) {
        Int2ThresholdRegisterA { bits }
    }

    fn to_bits(&self) -> (r: u8) {
        self.bits
    }

    proof fn lemma_round_trip(value: Self, bits: u8) {
    }
}

impl WritableRegister for Int2ThresholdRegisterA {

}

/// `INT2_DURATION_A` (37h): interrupt 2 duration.
#[derive(Clone, Copy, Debug, PartialEq, Eq, Structural)]
pub struct Int2DurationRegisterA {
    bits: u8,
}

impl View for Int2DurationRegisterA {
    type V = u8;

    closed spec fn view(&self) -> u8 {
        self.bits
    }
}

impl Int2DurationRegisterA {
    /// Creates the power-on value, `0b0000_0000`.
    pub fn new() -> (r: Self)
        ensures
            r@ == 0b0000_0000,
    {
        Int2DurationRegisterA { bits: 0b0000_0000 }
    }

    /// Creates a value from the register byte.
    pub fn from_bits(bits: u8) -> (r: Self)
        ensures
            r@ == bits,
    {
        Int2DurationRegisterA { bits }
    }

    /// Returns the register byte.
    pub fn into_bits(self) -> (r: u8)
        ensures
            r == self@,
    {
        self.bits
    }

    /// The minimum duration of the interrupt 2 event to be recognized. Duration
    /// steps and maximum values depend on the data rate.
    ///
    /// Bits 0..7.
    pub fn duration(&self) -> (r: u8)
        ensures
            r == field_of(self@, 0, 7),
    {
        get_field(self.bits, 0, 7)
    }

    /// Returns the value with [`duration`](Self::duration) replaced by `value`.
    pub fn with_duration(self, value: u8) -> (r: Self)
        requires
            value < 128,
        ensures
            r@ == with_field(self@, 0, 7, value),
    {
        Int2DurationRegisterA { bits: put_field(self.bits, 0, 7, value) }
    }

    /// Sets [`duration`](Self::duration) to `value`.
    pub fn set_duration(&mut self, value: u8)
        requires
            value < 128,
        ensures
            final(self)@ == with_field(old(self)@, 0, 7, value),
    {
        self.bits = put_field(self.bits, 0, 7, value);
    }

    /// Returns the value with [`duration`](Self::duration) replaced by `value`, or
    /// [`InvalidField`] when `value` does not fit in 7 bits.
    pub fn with_duration_checked(self, value: u8) -> (r: Result<Self, InvalidField>)
        ensures
            match r {
                Ok(v) => value < 128 && v@ == with_field(self@, 0, 7, value),
                Err(_) => value >= 128,
            },
    {
        if value < 128 {
            Ok(self.with_duration(value))
        } else {
            Err(InvalidField)
        }
    }

    /// Sets [`duration`](Self::duration) to `value`; fails with [`InvalidField`], and
    /// changes nothing, when `value` does not fit in 7 bits.
    pub fn set_duration_checked(&mut self, value: u8) -> (r: Result<(), InvalidField>)
        ensures
            value < 128 ==> r is Ok && final(self)@ == with_field(old(self)@, 0, 7, value),
            value >= 128 ==> r is Err && *final(self) == *old(self),
    {
        if value < 128 {
            self.set_duration(value);
            Ok(())
        } else {
            Err(InvalidField)
        }
    }
}

impl Default for Int2DurationRegisterA {
    /// The power-on value, `0b0000_0000`.
    fn default() -> (r: Self)
        ensures
            r@ == 0b0000_0000,
    {
        Self::new()
    }
}

impl Register for Int2DurationRegisterA {
    open spec fn raw_bits(&self) -> u8 {
        self@
    }

    closed spec fn spec_from_bits(bits: u8) -> Self {
        Int2DurationRegisterA { bits }
    }

    open spec fn spec_device_address() -> u8 {
        DEFAULT_DEVICE_ADDRESS
    }

    open spec fn spec_register_address() -> u8 {
        RegisterAddress::INT2_DURATION_A.spec_addr()
    }

    fn device_address() -> (r: u8) {
        DEFAULT_DEVICE_ADDRESS
    }

    fn register_address() -> (r: u8) {
        RegisterAddress::INT2_DURATION_A.addr()
    }

    fn from_bits(bits: u8) -> (r: Self) {
        Int2DurationRegisterA { bits }
    }

    fn to_bits(&self) -> (r: u8) {
        self.bits
    }

    proof fn lemma_round_trip(value: Self, bits: u8) {
    }
}

impl WritableRegister for Int2DurationRegisterA {

}

/// `CLICK_CFG_A` (38h): click detection configuration.
#[derive(Clone, Copy, Debug, PartialEq, Eq, Structural)]
pub struct ClickConfigurationRegisterA {
    bits: u8,
}

impl View for ClickConfigurationRegisterA {
    type V = u8;

    closed spec fn view(&self) -> u8 {
        self.bits
    }
}

impl ClickConfigurationRegisterA {
    /// Creates the power-on value, `0b0000_0000`.
    pub fn new() -> (r: Self)
        ensures
            r@ == 0b0000_0000,
    {
        ClickConfigurationRegisterA { bits: 0b0000_0000 }
    }

    /// Creates a value from the register byte.
    pub fn from_bits(bits: u8) -> (r: Self)
        ensures
            r@ == bits,
    {
        ClickConfigurationRegisterA { bits }
    }

    /// Returns the register byte.
    pub fn into_bits(self) -> (r: u8)
        ensures
            r == self@,
    {
        self.bits
    }

    /// Enable interrupt on double click on the Z axis.
    ///
    /// * `false` - disable interrupt request
    /// * `true` - enable interrupt request on measured accel. value higher than preset threshold
    ///
    /// Bit 5.
    pub fn zd(&self) -> (r: bool)
        ensures
            r == flag_of(self@, 5),
    {
        get_flag(self.bits, 5)
    }

    /// Returns the value with [`zd`](Self::zd) replaced by `value`.
    pub fn with_zd(self, value: bool) -> (r: Self)
        ensures
            r@ == with_field(self@, 5, 1, flag_bits(value)),
    {
        ClickConfigurationRegisterA { bits: put_flag(self.bits, 5, value) }
    }

    /// Sets [`zd`](Self::zd) to `value`.
    pub fn set_zd(&mut self, value: bool)
        ensures
            final(self)@ == with_field(old(self)@, 5, 1, flag_bits(value)),
    {
        self.bits = put_flag(self.bits, 5, value);
    }

    /// Enable interrupt on single click on the Z axis.
    ///
    /// * `false` - disable interrupt request
    /// * `true` - enable interrupt request on measured accel. value higher than preset threshold
    ///
    /// Bit 4.
    pub fn zs(&self) -> (r: bool)
        ensures
            r == flag_of(self@, 4),
    {
        get_flag(self.bits, 4)
    }

    /// Returns the value with [`zs`](Self::zs) replaced by `value`.
    pub fn with_zs(self, value: bool) -> (r: Self)
        ensures
            r@ == with_field(self@, 4, 1, flag_bits(value)),
    {
        ClickConfigurationRegisterA { bits: put_flag(self.bits, 4, value) }
    }

    /// Sets [`zs`](Self::zs) to `value`.
    pub fn set_zs(&mut self, value: bool)
        ensures
            final(self)@ == with_field(old(self)@, 4, 1, flag_bits(value)),
    {
        self.bits = put_flag(self.bits, 4, value);
    }

    /// Enable interrupt on double click on the Y axis.
    ///
    /// * `false` - disable interrupt request
    /// * `true` - enable interrupt request on measured accel. value higher than preset threshold
    ///
    /// Bit 3.
    pub fn yd(&self) -> (r: bool)
        ensures
            r == flag_of(self@, 3),
    {
        get_flag(self.bits, 3)
    }

    /// Returns the value with [`yd`](Self::yd) replaced by `value`.
    pub fn with_yd(self, value: bool) -> (r: Self)
        ensures
            r@ == with_field(self@, 3, 1, flag_bits(value)),
    {
        ClickConfigurationRegisterA { bits: put_flag(self.bits, 3, value) }
    }

    /// Sets [`yd`](Self::yd) to `value`.
    pub fn set_yd(&mut self, value: bool)
        ensures
            final(self)@ == with_field(old(self)@, 3, 1, flag_bits(value)),
    {
        self.bits = put_flag(self.bits, 3, value);
    }

    /// Enable interrupt on single click on the Y axis.
    ///
    /// * `false` - disable interrupt request
    /// * `true` - enable interrupt request on measured accel. value higher than preset threshold
    ///
    /// Bit 2.
    pub fn ys(&self) -> (r: bool)
        ensures
            r == flag_of(self@, 2),
    {
        get_flag(self.bits, 2)
    }

    /// Returns the value with [`ys`](Self::ys) replaced by `value`.
    pub fn with_ys(self, value: bool) -> (r: Self)
        ensures
            r@ == with_field(self@, 2, 1, flag_bits(value)),
    {
        ClickConfigurationRegisterA { bits: put_flag(self.bits, 2, value) }
    }

    /// Sets [`ys`](Self::ys) to `value`.
    pub fn set_ys(&mut self, value: bool)
        ensures
            final(self)@ == with_field(old(self)@, 2, 1, flag_bits(value)),
    {
        self.bits = put_flag(self.bits, 2, value);
    }

    /// Enable interrupt on double click on the X axis.
    ///
    /// * `false` - disable interrupt request
    /// * `true` - enable interrupt request on measured accel. value higher than preset threshold
    ///
    /// Bit 1.
    pub fn xd(&self) -> (r: bool)
        ensures
            r == flag_of(self@, 1),
    {
        get_flag(self.bits, 1)
    }

    /// Returns the value with [`xd`](Self::xd) replaced by `value`.
    pub fn with_xd(self, value: bool) -> (r: Self)
        ensures
            r@ == with_field(self@, 1, 1, flag_bits(value)),
    {
        ClickConfigurationRegisterA { bits: put_flag(self.bits, 1, value) }
    }

    /// Sets [`xd`](Self::xd) to `value`.
    pub fn set_xd(&mut self, value: bool)
        ensures
            final(self)@ == with_field(old(self)@, 1, 1, flag_bits(value)),
    {
        self.bits = put_flag(self.bits, 1, value);
    }

    /// Enable interrupt on single click on the X axis.
    ///
    /// * `false` - disable interrupt request
    /// * `true` - enable interrupt request on measured accel. value higher than preset threshold
    ///
    /// Bit 0.
    pub fn xs(&self) -> (r: bool)
        ensures
            r == flag_of(self@, 0),
    {
        get_flag(self.bits, 0)
    }

    /// Returns the value with [`xs`](Self::xs) replaced by `value`.
    pub fn with_xs(self, value: bool) -> (r: Self)
        ensures
            r@ == with_field(self@, 0, 1, flag_bits(value)),
    {
        ClickConfigurationRegisterA { bits: put_flag(self.bits, 0, value) }
    }

    /// Sets [`xs`](Self::xs) to `value`.
    pub fn set_xs(&mut self, value: bool)
        ensures
            final(self)@ == with_field(old(self)@, 0, 1, flag_bits(value)),
    {
        self.bits = put_flag(self.bits, 0, value);
    }
}

impl Default for ClickConfigurationRegisterA {
    /// The power-on value, `0b0000_0000`.
    fn default() -> (r: Self)
        ensures
            r@ == 0b0000_0000,
    {
        Self::new()
    }
}

impl Register for ClickConfigurationRegisterA {
    open spec fn raw_bits(&self) -> u8 {
        self@
    }

    closed spec fn spec_from_bits(bits: u8) -> Self {
        ClickConfigurationRegisterA { bits }
    }

    open spec fn spec_device_address() -> u8 {
        DEFAULT_DEVICE_ADDRESS
    }

    open spec fn spec_register_address() -> u8 {
        RegisterAddress::CLICK_CFG_A.spec_addr()
    }

    fn device_address() -> (r: u8) {
        DEFAULT_DEVICE_ADDRESS
    }

    fn register_address() -> (r: u8) {
        RegisterAddress::CLICK_CFG_A.addr()
    }

    fn from_bits(bits: u8) -> (r: Self) {
        ClickConfigurationRegisterA { bits }
    }

    fn to_bits(&self) -> (r: u8) {
        self.bits
    }

    proof fn lemma_round_trip(value: Self, bits: u8) {
    }
}

impl WritableRegister for ClickConfigurationRegisterA {

}

/// `CLICK_SRC_A` (39h): click detection source.
#[derive(Clone, Copy, Debug, PartialEq, Eq, Structural)]
pub struct ClickSourceRegisterA {
    bits: u8,
}

impl View for ClickSourceRegisterA {
    type V = u8;

    closed spec fn view(&self) -> u8 {
        self.bits
    }
}

impl ClickSourceRegisterA {
    /// Creates the power-on value, `0b0000_0000`.
    pub fn new() -> (r: Self)
        ensures
            r@ == 0b0000_0000,
    {
        ClickSourceRegisterA { bits: 0b0000_0000 }
    }

    /// Creates a value from the register byte.
    pub fn from_bits(bits: u8) -> (r: Self)
        ensures
            r@ == bits,
    {
        ClickSourceRegisterA { bits }
    }

    /// Returns the register byte.
    pub fn into_bits(self) -> (r: u8)
        ensures
            r == self@,
    {
        self.bits
    }

    /// Interrupt active.
    ///
    /// Bit 6.
    pub fn ia(&self) -> (r: bool)
        ensures
            r == flag_of(self@, 6),
    {
        get_flag(self.bits, 6)
    }

    /// Double-click detection enable.
    ///
    /// * `false` - double-click detection disabled
    /// * `true` - double-click detection enabled
    ///
    /// Bit 5.
    pub fn dclick(&self) -> (r: bool)
        ensures
            r == flag_of(self@, 5),
    {
        get_flag(self.bits, 5)
    }

    /// Single-click detection enable.
    ///
    /// * `false` - single-click detection disabled
    /// * `true` - single-click detection enabled
    ///
    /// Bit 4.
    pub fn sclick(&self) -> (r: bool)
        ensures
            r == flag_of(self@, 4),
    {
        get_flag(self.bits, 4)
    }

    /// Click sign.
    ///
    /// Bit 3.
    pub fn sign_negative(&self) -> (r: bool)
        ensures
            r == flag_of(self@, 3),
    {
        get_flag(self.bits, 3)
    }

    /// Z click detection.
    ///
    /// * `false` - no interrupt
    /// * `true` - Z high event has occurred
    ///
    /// Bit 2.
    pub fn z(&self) -> (r: bool)
        ensures
            r == flag_of(self@, 2),
    {
        get_flag(self.bits, 2)
    }

    /// Y click detection.
    ///
    /// * `false` - no interrupt
    /// * `true` - Y high event has occurred
    ///
    /// Bit 1.
    pub fn y(&self) -> (r: bool)
        ensures
            r == flag_of(self@, 1),
    {
        get_flag(self.bits, 1)
    }

    /// X click detection.
    ///
    /// * `false` - no interrupt
    /// * `true` - X high event has occurred
    ///
    /// Bit 0.
    pub fn x(&self) -> (r: bool)
        ensures
            r == flag_of(self@, 0),
    {
        get_flag(self.bits, 0)
    }
}

impl Default for ClickSourceRegisterA {
    /// The power-on value, `0b0000_0000`.
    fn default() -> (r: Self)
        ensures
            r@ == 0b0000_0000,
    {
        Self::new()
    }
}

impl Register for ClickSourceRegisterA {
    open spec fn raw_bits(&self) -> u8 {
        self@
    }

    closed spec fn spec_from_bits(bits: u8) -> Self {
        ClickSourceRegisterA { bits }
    }

    open spec fn spec_device_address() -> u8 {
        DEFAULT_DEVICE_ADDRESS
    }

    open spec fn spec_register_address() -> u8 {
        RegisterAddress::CLICK_SRC_A.spec_addr()
    }

    fn device_address() -> (r: u8) {
        DEFAULT_DEVICE_ADDRESS
    }

    fn register_address() -> (r: u8) {
        RegisterAddress::CLICK_SRC_A.addr()
    }

    fn from_bits(bits: u8) -> (r: Self) {
        ClickSourceRegisterA { bits }
    }

    fn to_bits(&self) -> (r: u8) {
        self.bits
    }

    proof fn lemma_round_trip(value: Self, bits: u8) {
    }
}

/// `CLICK_THS_A` (3Ah): click threshold.
#[derive(Clone, Copy, Debug, PartialEq, Eq, Structural)]
pub struct ClickThresholdRegisterA {
    bits: u8,
}

impl View for ClickThresholdRegisterA {
    type V = u8;

    closed spec fn view(&self) -> u8 {
        self.bits
    }
}

impl ClickThresholdRegisterA {
    /// Creates the power-on value, `0b0000_0000`.
    pub fn new() -> (r: Self)
        ensures
            r@ == 0b0000_0000,
    {
        ClickThresholdRegisterA { bits: 0b0000_0000 }
    }

    /// Creates a value from the register byte.
    pub fn from_bits(bits: u8) -> (r: Self)
        ensures
            r@ == bits,
    {
        ClickThresholdRegisterA { bits }
    }

    /// Returns the register byte.
    pub fn into_bits(self) -> (r: u8)
        ensures
            r == self@,
    {
        self.bits
    }

    /// Click threshold, an unsigned 7-bit number.
    ///
    /// 1 LSB = full scale / 128. Above this threshold the click detection starts.
    ///
    /// Bits 0..7.
    pub fn threshold(&self) -> (r: u8)
        ensures
            r == field_of(self@, 0, 7),
    {
        get_field(self.bits, 0, 7)
    }

    /// Returns the value with [`threshold`](Self::threshold) replaced by `value`.
    pub fn with_threshold(self, value: u8) -> (r: Self)
        requires
            value < 128,
        ensures
            r@ == with_field(self@, 0, 7, value),
    {
        ClickThresholdRegisterA { bits: put_field(self.bits, 0, 7, value) }
    }

    /// Sets [`threshold`](Self::threshold) to `value`.
    pub fn set_threshold(&mut self, value: u8)
        requires
            value < 128,
        ensures
            final(self)@ == with_field(old(self)@, 0, 7, value),
    {
        self.bits = put_field(self.bits, 0, 7, value);
    }

    /// Returns the value with [`threshold`](Self::threshold) replaced by `value`, or
    /// [`InvalidField`] when `value` does not fit in 7 bits.
    pub fn with_threshold_checked(self, value: u8) -> (r: Result<Self, InvalidField>)
        ensures
            match r {
                Ok(v) => value < 128 && v@ == with_field(self@, 0, 7, value),
                Err(_) => value >= 128,
            },
    {
        if value < 128 {
            Ok(self.with_threshold(value))
        } else {
            Err(InvalidField)
        }
    }

    /// Sets [`threshold`](Self::threshold) to `value`; fails with [`InvalidField`], and
    /// changes nothing, when `value` does not fit in 7 bits.
    pub fn set_threshold_checked(&mut self, value: u8) -> (r: Result<(), InvalidField>)
        ensures
            value < 128 ==> r is Ok && final(self)@ == with_field(old(self)@, 0, 7, value),
            value >= 128 ==> r is Err && *final(self) == *old(self),
    {
        if value < 128 {
            self.set_threshold(value);
            Ok(())
        } else {
            Err(InvalidField)
        }
    }
}

impl Default for ClickThresholdRegisterA {
    /// The power-on value, `0b0000_0000`.
    fn default() -> (r: Self)
        ensures
            r@ == 0b0000_0000,
    {
        Self::new()
    }
}

impl Register for ClickThresholdRegisterA {
    open spec fn raw_bits(&self) -> u8 {
        self@
    }

    closed spec fn spec_from_bits(bits: u8) -> Self {
        ClickThresholdRegisterA { bits }
    }

    open spec fn spec_device_address() -> u8 {
        DEFAULT_DEVICE_ADDRESS
    }

    open spec fn spec_register_address() -> u8 {
        RegisterAddress::CLICK_THS_A.spec_addr()
    }

    fn device_address() -> (r: u8) {
        DEFAULT_DEVICE_ADDRESS
    }

    fn register_address() -> (r: u8) {
        RegisterAddress::CLICK_THS_A.addr()
    }

    fn from_bits(bits: u8) -> (r: Self) {
        ClickThresholdRegisterA { bits }
    }

    fn to_bits(&self) -> (r: u8) {
        self.bits
    }

    proof fn lemma_round_trip(value: Self, bits: u8) {
    }
}

impl WritableRegister for ClickThresholdRegisterA {

}

/// `TIME_LIMIT_A` (3Bh): click time limit.
#[derive(Clone, Copy, Debug, PartialEq, Eq, Structural)]
pub struct ClickTimeLimitRegisterA {
    bits: u8,
}

impl View for ClickTimeLimitRegisterA {
    type V = u8;

    closed spec fn view(&self) -> u8 {
        self.bits
    }
}

impl ClickTimeLimitRegisterA {
    /// Creates the power-on value, `0b0000_0000`.
    pub fn new() -> (r: Self)
        ensures
            r@ == 0b0000_0000,
    {
        ClickTimeLimitRegisterA { bits: 0b0000_0000 }
    }

    /// Creates a value from the register byte.
    pub fn from_bits(bits: u8) -> (r: Self)
        ensures
            r@ == bits,
    {
        ClickTimeLimitRegisterA { bits }
    }

    /// Returns the register byte.
    pub fn into_bits(self) -> (r: u8)
        ensures
            r == self@,
    {
        self.bits
    }

    /// Click time limit.
    ///
    /// 1 LSB = 1/ODR. The longest time between the start of the click detection,
    /// when the acceleration on the selected axis exceeds the threshold, and the
    /// moment it falls below the threshold again.
    ///
    /// Bits 0..7.
    pub fn time_limit(&self) -> (r: u8)
        ensures
            r == field_of(self@, 0, 7),
    {
        get_field(self.bits, 0, 7)
    }

    /// Returns the value with [`time_limit`](Self::time_limit) replaced by `value`.
    pub fn with_time_limit(self, value: u8) -> (r: Self)
        requires
            value < 128,
        ensures
            r@ == with_field(self@, 0, 7, value),
    {
        ClickTimeLimitRegisterA { bits: put_field(self.bits, 0, 7, value) }
    }

    /// Sets [`time_limit`](Self::time_limit) to `value`.
    pub fn set_time_limit(&mut self, value: u8)
        requires
            value < 128,
        ensures
            final(self)@ == with_field(old(self)@, 0, 7, value),
    {
        self.bits = put_field(self.bits, 0, 7, value);
    }

    /// Returns the value with [`time_limit`](Self::time_limit) replaced by `value`, or
    /// [`InvalidField`] when `value` does not fit in 7 bits.
    pub fn with_time_limit_checked(self, value: u8) -> (r: Result<Self, InvalidField>)
        ensures
            match r {
                Ok(v) => value < 128 && v@ == with_field(self@, 0, 7, value),
                Err(_) => value >= 128,
            },
    {
        if value < 128 {
            Ok(self.with_time_limit(value))
        } else {
            Err(InvalidField)
        }
    }

    /// Sets [`time_limit`](Self::time_limit) to `value`; fails with [`InvalidField`], and
    /// changes nothing, when `value` does not fit in 7 bits.
    pub fn set_time_limit_checked(&mut self, value: u8) -> (r: Result<(), InvalidField>)
        ensures
            value < 128 ==> r is Ok && final(self)@ == with_field(old(self)@, 0, 7, value),
            value >= 128 ==> r is Err && *final(self) == *old(self),
    {
        if value < 128 {
            self.set_time_limit(value);
            Ok(())
        } else {
            Err(InvalidField)
        }
    }
}

impl Default for ClickTimeLimitRegisterA {
    /// The power-on value, `0b0000_0000`.
    fn default() -> (r: Self)
        ensures
            r@ == 0b0000_0000,
    {
        Self::new()
    }
}

impl Register for ClickTimeLimitRegisterA {
    open spec fn raw_bits(&self) -> u8 {
        self@
    }

    closed spec fn spec_from_bits(bits: u8) -> Self {
        ClickTimeLimitRegisterA { bits }
    }

    open spec fn spec_device_address() -> u8 {
        DEFAULT_DEVICE_ADDRESS
    }

    open spec fn spec_register_address() -> u8 {
        RegisterAddress::TIME_LIMIT_A.spec_addr()
    }

    fn device_address() -> (r: u8) {
        DEFAULT_DEVICE_ADDRESS
    }

    fn register_address() -> (r: u8) {
        RegisterAddress::TIME_LIMIT_A.addr()
    }

    fn from_bits(bits: u8) -> (r: Self) {
        ClickTimeLimitRegisterA { bits }
    }

    fn to_bits(&self) -> (r: u8) {
        self.bits
    }

    proof fn lemma_round_trip(value: Self, bits: u8) {
    }
}

impl WritableRegister for ClickTimeLimitRegisterA {

}

/// `TIME_LATENCY_A` (3Ch): double-click latency.
#[derive(Clone, Copy, Debug, PartialEq, Eq, Structural)]
pub struct ClickTimeLatencyRegisterA {
    bits: u8,
}

impl View for ClickTimeLatencyRegisterA {
    type V = u8;

    closed spec fn view(&self) -> u8 {
        self.bits
    }
}

impl ClickTimeLatencyRegisterA {
    /// Creates the power-on value, `0b0000_0000`.
    pub fn new() -> (r: Self)
        ensures
            r@ == 0b0000_0000,
    {
        ClickTimeLatencyRegisterA { bits: 0b0000_0000 }
    }

    /// Creates a value from the register byte.
    pub fn from_bits(bits: u8) -> (r: Self)
        ensures
            r@ == bits,
    {
        ClickTimeLatencyRegisterA { bits }
    }

    /// Returns the register byte.
    pub fn into_bits(self) -> (r: u8)
        ensures
            r == self@,
    {
        self.bits
    }

    /// Double-click time latency.
    ///
    /// 1 LSB = 1/ODR. The time after the first click during which click
    /// detection is disabled, when double-click detection is configured.
    ///
    /// Bits 0..8.
    pub fn time_latency(&self) -> (r: u8)
        ensures
            r == self@,
    {
        self.bits
    }

    /// Returns the value with [`time_latency`](Self::time_latency) replaced by `value`.
    pub fn with_time_latency(self, value: u8) -> (r: Self)
        ensures
            r@ == value,
    {
        ClickTimeLatencyRegisterA { bits: value }
    }

    /// Sets [`time_latency`](Self::time_latency) to `value`.
    pub fn set_time_latency(&mut self, value: u8)
        ensures
            final(self)@ == value,
    {
        self.bits = value;
    }
}

impl Default for ClickTimeLatencyRegisterA {
    /// The power-on value, `0b0000_0000`.
    fn default() -> (r: Self)
        ensures
            r@ == 0b0000_0000,
    {
        Self::new()
    }
}

impl Register for ClickTimeLatencyRegisterA {
    open spec fn raw_bits(&self) -> u8 {
        self@
    }

    closed spec fn spec_from_bits(bits: u8) -> Self {
        ClickTimeLatencyRegisterA { bits }
    }

    open spec fn spec_device_address() -> u8 {
        DEFAULT_DEVICE_ADDRESS
    }

    open spec fn spec_register_address() -> u8 {
        RegisterAddress::TIME_LATENCY_A.spec_addr()
    }

    fn device_address() -> (r: u8) {
        DEFAULT_DEVICE_ADDRESS
    }

    fn register_address() -> (r: u8) {
        RegisterAddress::TIME_LATENCY_A.addr()
    }

    fn from_bits(bits: u8) -> (r: Self) {
        ClickTimeLatencyRegisterA { bits }
    }

    fn to_bits(&self) -> (r: u8) {
        self.bits
    }

    proof fn lemma_round_trip(value: Self, bits: u8) {
    }
}

impl WritableRegister for ClickTimeLatencyRegisterA {

}

/// `TIME_WINDOW_A` (3Dh): double-click window.
#[derive(Clone, Copy, Debug, PartialEq, Eq, Structural)]
pub struct ClickTimeWindowRegisterA {
    bits: u8,
}

impl View for ClickTimeWindowRegisterA {
    type V = u8;

    closed spec fn view(&self) -> u8 {
        self.bits
    }
}

impl ClickTimeWindowRegisterA {
    /// Creates the power-on value, `0b0000_0000`.
    pub fn new() -> (r: Self)
        ensures
            r@ == 0b0000_0000,
    {
        ClickTimeWindowRegisterA { bits: 0b0000_0000 }
    }

    /// Creates a value from the register byte.
    pub fn from_bits(bits: u8) -> (r: Self)
        ensures
            r@ == bits,
    {
        ClickTimeWindowRegisterA { bits }
    }

    /// Returns the register byte.
    pub fn into_bits(self) -> (r: u8)
        ensures
            r == self@,
    {
        self.bits
    }

    /// Double-click time window.
    ///
    /// 1 LSB = 1/ODR. The longest time after the latency interval in which the
    /// second click may start, when double-click detection is configured.
    ///
    /// Bits 0..8.
    pub fn time_window(&self) -> (r: u8)
        ensures
            r == self@,
    {
        self.bits
    }

    /// Returns the value with [`time_window`](Self::time_window) replaced by `value`.
    pub fn with_time_window(self, value: u8) -> (r: Self)
        ensures
            r@ == value,
    {
        ClickTimeWindowRegisterA { bits: value }
    }

    /// Sets [`time_window`](Self::time_window) to `value`.
    pub fn set_time_window(&mut self, value: u8)
        ensures
            final(self)@ == value,
    {
        self.bits = value;
    }
}

impl Default for ClickTimeWindowRegisterA {
    /// The power-on value, `0b0000_0000`.
    fn default() -> (r: Self)
        ensures
            r@ == 0b0000_0000,
    {
        Self::new()
    }
}

impl Register for ClickTimeWindowRegisterA {
    open spec fn raw_bits(&self) -> u8 {
        self@
    }

    closed spec fn spec_from_bits(bits: u8) -> Self {
        ClickTimeWindowRegisterA { bits }
    }

    open spec fn spec_device_address() -> u8 {
        DEFAULT_DEVICE_ADDRESS
    }

    open spec fn spec_register_address() -> u8 {
        RegisterAddress::TIME_WINDOW_A.spec_addr()
    }

    fn device_address() -> (r: u8) {
        DEFAULT_DEVICE_ADDRESS
    }

    fn register_address() -> (r: u8) {
        RegisterAddress::TIME_WINDOW_A.addr()
    }

    fn from_bits(bits: u8) -> (r: Self) {
        ClickTimeWindowRegisterA { bits }
    }

    fn to_bits(&self) -> (r: u8) {
        self.bits
    }

    proof fn lemma_round_trip(value: Self, bits: u8) {
    }
}

impl WritableRegister for ClickTimeWindowRegisterA {

}

} // verus!
