//! Magnetometer and temperature registers.
mod conversions;
mod types;

pub use types::{MagGain, MagOdr};

use crate::bitfield::{field_of, flag_bits, flag_of, get_field, get_flag, put_field, put_flag, with_field};
use crate::register::{Register, WritableRegister};
use vstd::prelude::*;

verus! {

/// The 7-bit bus address of the magnetometer and thermometer, `0011110b`.
///
/// A read issues a repeated start after the sub-address. The device always
/// increments the sub-address after each byte, and wraps around as
/// [`crate::transaction::burst_addresses`] describes.
pub const DEFAULT_DEVICE_ADDRESS: u8 = 0b0011110;

/// Register sub-addresses of the magnetometer and thermometer.
///
/// See also [`DEFAULT_DEVICE_ADDRESS`].
#[allow(non_camel_case_types)]
#[derive(Clone, Copy, Debug, PartialEq, Eq, Structural)]
pub enum RegisterAddress {
    /// See [`ConfigurationARegisterM`] (00h).
    CRA_REG_M,
    /// See [`ConfigurationBRegisterM`] (01h).
    CRB_REG_M,
    /// See [`ModeRegisterM`] (02h).
    MR_REG_M,
    /// See [`OutXHighM`] (03h).
    OUT_X_H_M,
    /// See [`OutXLowM`] (04h).
    OUT_X_L_M,
    /// See [`OutZHighM`] (05h).
    OUT_Z_H_M,
    /// See [`OutZLowM`] (06h).
    OUT_Z_L_M,
    /// See [`OutYHighM`] (07h).
    OUT_Y_H_M,
    /// See [`OutYLowM`] (08h).
    OUT_Y_L_M,
    /// See [`StatusRegisterM`] (09h).
    SR_REG_M,
    /// See [`IdentificationARegisterM`] (0Ah).
    IRA_REG_M,
    /// See [`IdentificationBRegisterM`] (0Bh).
    IRB_REG_M,
    /// See [`IdentificationCRegisterM`] (0Ch).
    IRC_REG_M,
    /// See [`TemperatureOutHighM`] (31h).
    TEMP_OUT_H_M,
    /// See [`TemperatureOutLowM`] (32h).
    TEMP_OUT_L_M,
}

impl RegisterAddress {
    /// The sub-address of a register.
    pub open spec fn spec_addr(&self) -> u8 {
        match self {
            RegisterAddress::CRA_REG_M => 0x00,
            RegisterAddress::CRB_REG_M => 0x01,
            RegisterAddress::MR_REG_M => 0x02,
            RegisterAddress::OUT_X_H_M => 0x03,
            RegisterAddress::OUT_X_L_M => 0x04,
            RegisterAddress::OUT_Z_H_M => 0x05,
            RegisterAddress::OUT_Z_L_M => 0x06,
            RegisterAddress::OUT_Y_H_M => 0x07,
            RegisterAddress::OUT_Y_L_M => 0x08,
            RegisterAddress::SR_REG_M => 0x09,
            RegisterAddress::IRA_REG_M => 0x0A,
            RegisterAddress::IRB_REG_M => 0x0B,
            RegisterAddress::IRC_REG_M => 0x0C,
            RegisterAddress::TEMP_OUT_H_M => 0x31,
            RegisterAddress::TEMP_OUT_L_M => 0x32,
        }
    }

    /// The register may be written; the others are read-only.
    pub open spec fn spec_is_writable(&self) -> bool {
        match self {
            RegisterAddress::CRA_REG_M => true,
            RegisterAddress::CRB_REG_M => true,
            RegisterAddress::MR_REG_M => true,
            _ => false,
        }
    }

    /// Returns the address of a register.
    #[verifier::when_used_as_spec(spec_addr)]
    pub fn addr(&self) -> (r: u8)
        ensures
            r == self.spec_addr(),
    {
        match self {
            RegisterAddress::CRA_REG_M => 0x00,
            RegisterAddress::CRB_REG_M => 0x01,
            RegisterAddress::MR_REG_M => 0x02,
            RegisterAddress::OUT_X_H_M => 0x03,
            RegisterAddress::OUT_X_L_M => 0x04,
            RegisterAddress::OUT_Z_H_M => 0x05,
            RegisterAddress::OUT_Z_L_M => 0x06,
            RegisterAddress::OUT_Y_H_M => 0x07,
            RegisterAddress::OUT_Y_L_M => 0x08,
            RegisterAddress::SR_REG_M => 0x09,
            RegisterAddress::IRA_REG_M => 0x0A,
            RegisterAddress::IRB_REG_M => 0x0B,
            RegisterAddress::IRC_REG_M => 0x0C,
            RegisterAddress::TEMP_OUT_H_M => 0x31,
            RegisterAddress::TEMP_OUT_L_M => 0x32,
        }
    }

    /// Tells whether the register may be written.
    #[verifier::when_used_as_spec(spec_is_writable)]
    pub fn is_writable(&self) -> (r: bool)
        ensures
            r == self.spec_is_writable(),
    {
        match self {
            RegisterAddress::CRA_REG_M => true,
            RegisterAddress::CRB_REG_M => true,
            RegisterAddress::MR_REG_M => true,
            _ => false,
        }
    }
}

impl From<RegisterAddress> for u8 {
    fn from(value: RegisterAddress) -> (r: u8) {
        value.addr()
    }
}

impl vstd::std_specs::convert::FromSpecImpl<RegisterAddress> for u8 {
    open spec fn obeys_from_spec() -> bool {
        true
    }

    open spec fn from_spec(v: RegisterAddress) -> u8 {
        v.spec_addr()
    }
}

impl RegisterAddress {
    /// No two registers share a sub-address, and every sub-address lies in
    /// `0x00..=0x0C` or, for the thermometer, `0x31..=0x32`.
    pub proof fn lemma_addresses_distinct(a: RegisterAddress, b: RegisterAddress)
        ensures
            a != b ==> a.spec_addr() != b.spec_addr(),
            a.spec_addr() <= 0x0C || 0x31 <= a.spec_addr() <= 0x32,
    {
    }
}

/// `CRA_REG_M` (00h): temperature sensor and data output rate.
#[derive(Clone, Copy, Debug, PartialEq, Eq, Structural)]
pub struct ConfigurationARegisterM {
    bits: u8,
}

impl View for ConfigurationARegisterM {
    type V = u8;

    closed spec fn view(&self) -> u8 {
        self.bits
    }
}

impl ConfigurationARegisterM {
    /// Creates the power-on value, `0b0001_0000`.
    pub fn new() -> (r: Self)
        ensures
            r@ == 0b0001_0000,
    {
        ConfigurationARegisterM { bits: 0b0001_0000 }
    }

    /// Creates a value from the register byte.
    pub fn from_bits(bits: u8) -> (r: Self)
        ensures
            r@ == bits,
    {
        ConfigurationARegisterM { bits }
    }

    /// Returns the register byte.
    pub fn into_bits(self) -> (r: u8)
        ensures
            r == self@,
    {
        self.bits
    }

    /// Temperature sensor enabled.
    ///
    /// Bit 7.
    pub fn temp_en(&self) -> (r: bool)
        ensures
            r == flag_of(self@, 7),
    {
        get_flag(self.bits, 7)
    }

    /// Returns the value with [`temp_en`](Self::temp_en) replaced by `value`.
    pub fn with_temp_en(self, value: bool) -> (r: Self)
        ensures
            r@ == with_field(self@, 7, 1, flag_bits(value)),
    {
        ConfigurationARegisterM { bits: put_flag(self.bits, 7, value) }
    }

    /// Sets [`temp_en`](Self::temp_en) to `value`.
    pub fn set_temp_en(&mut self, value: bool)
        ensures
            final(self)@ == with_field(old(self)@, 7, 1, flag_bits(value)),
    {
        self.bits = put_flag(self.bits, 7, value);
    }

    /// Data output rate: the rate at which all three data output registers are
    /// written.
    ///
    /// The datasheet is inconsistent about the power-on value of this field:
    /// its prose gives `100` (15 Hz), while its register table shows the byte
    /// with one digit missing. Read with that digit restored, `0001_0000`, the
    /// table agrees with the prose, and `100` is the power-on value here.
    ///
    /// Bits 2..5.
    pub fn data_output_rate(&self) -> (r: MagOdr)
        ensures
            r == MagOdr::spec_from_bits(field_of(self@, 2, 3)),
    {
        MagOdr::from_bits(get_field(self.bits, 2, 3))
    }

    /// Returns the value with [`data_output_rate`](Self::data_output_rate) replaced by `value`.
    pub fn with_data_output_rate(self, value: MagOdr) -> (r: Self)
        ensures
            r@ == with_field(self@, 2, 3, value.into_bits()),
    {
        ConfigurationARegisterM { bits: put_field(self.bits, 2, 3, value.into_bits()) }
    }

    /// Sets [`data_output_rate`](Self::data_output_rate) to `value`.
    pub fn set_data_output_rate(&mut self, value: MagOdr)
        ensures
            final(self)@ == with_field(old(self)@, 2, 3, value.into_bits()),
    {
        self.bits = put_field(self.bits, 2, 3, value.into_bits());
    }
}

impl Default for ConfigurationARegisterM {
    /// The power-on value, `0b0001_0000`.
    fn default() -> (r: Self)
        ensures
            r@ == 0b0001_0000,
    {
        Self::new()
    }
}

impl Register for ConfigurationARegisterM {
    open spec fn raw_bits(&self) -> u8 {
        self@
    }

    closed spec fn spec_from_bits(bits: u8) -> Self {
        ConfigurationARegisterM { bits }
    }

    open spec fn spec_device_address() -> u8 {
        DEFAULT_DEVICE_ADDRESS
    }

    open spec fn spec_register_address() -> u8 {
        RegisterAddress::CRA_REG_M.spec_addr()
    }

    fn device_address() -> (r: u8) {
        DEFAULT_DEVICE_ADDRESS
    }

    fn register_address() -> (r: u8) {
        RegisterAddress::CRA_REG_M.addr()
    }

    fn from_bits(bits: u8) -> (r: Self) {
        ConfigurationARegisterM { bits }
    }

    fn to_bits(&self) -> (r: u8) {
        self.bits
    }

    proof fn lemma_round_trip(value: Self, bits: u8) {
    }
}

impl WritableRegister for ConfigurationARegisterM {

}

/// `CRB_REG_M` (01h): gain configuration.
#[derive(Clone, Copy, Debug, PartialEq, Eq, Structural)]
pub struct ConfigurationBRegisterM {
    bits: u8,
}

impl View for ConfigurationBRegisterM {
    type V = u8;

    closed spec fn view(&self) -> u8 {
        self.bits
    }
}

impl ConfigurationBRegisterM {
    /// Creates the power-on value, `0b0010_0000`.
    pub fn new() -> (r: Self)
        ensures
            r@ == 0b0010_0000,
    {
        ConfigurationBRegisterM { bits: 0b0010_0000 }
    }

    /// Creates a value from the register byte.
    pub fn from_bits(bits: u8) -> (r: Self)
        ensures
            r@ == bits,
    {
        ConfigurationBRegisterM { bits }
    }

    /// Returns the register byte.
    pub fn into_bits(self) -> (r: u8)
        ensures
            r == self@,
    {
        self.bits
    }

    /// Gain configuration.
    ///
    /// Bits 5..8.
    pub fn gain(&self) -> (r: MagGain)
        ensures
            r == MagGain::spec_from_bits(field_of(self@, 5, 3)),
    {
        MagGain::from_bits(get_field(self.bits, 5, 3))
    }

    /// Returns the value with [`gain`](Self::gain) replaced by `value`.
    pub fn with_gain(self, value: MagGain) -> (r: Self)
        ensures
            r@ == with_field(self@, 5, 3, value.into_bits()),
    {
        ConfigurationBRegisterM { bits: put_field(self.bits, 5, 3, value.into_bits()) }
    }

    /// Sets [`gain`](Self::gain) to `value`.
    pub fn set_gain(&mut self, value: MagGain)
        ensures
            final(self)@ == with_field(old(self)@, 5, 3, value.into_bits()),
    {
        self.bits = put_field(self.bits, 5, 3, value.into_bits());
    }
}

impl Default for ConfigurationBRegisterM {
    /// The power-on value, `0b0010_0000`.
    fn default() -> (r: Self)
        ensures
            r@ == 0b0010_0000,
    {
        Self::new()
    }
}

impl Register for ConfigurationBRegisterM {
    open spec fn raw_bits(&self) -> u8 {
        self@
    }

    closed spec fn spec_from_bits(bits: u8) -> Self {
        ConfigurationBRegisterM { bits }
    }

    open spec fn spec_device_address() -> u8 {
        DEFAULT_DEVICE_ADDRESS
    }

    open spec fn spec_register_address() -> u8 {
        RegisterAddress::CRB_REG_M.spec_addr()
    }

    fn device_address() -> (r: u8) {
        DEFAULT_DEVICE_ADDRESS
    }

    fn register_address() -> (r: u8) {
        RegisterAddress::CRB_REG_M.addr()
    }

    fn from_bits(bits: u8) -> (r: Self) {
        ConfigurationBRegisterM { bits }
    }

    fn to_bits(&self) -> (r: u8) {
        self.bits
    }

    proof fn lemma_round_trip(value: Self, bits: u8) {
    }
}

impl WritableRegister for ConfigurationBRegisterM {

}

/// `MR_REG_M` (02h): operating mode.
///
/// The device powers up asleep: a driver has to clear [`sleep_mode`](Self::sleep_mode)
/// for continuous operation.
#[derive(Clone, Copy, Debug, PartialEq, Eq, Structural)]
pub struct ModeRegisterM {
    bits: u8,
}

impl View for ModeRegisterM {
    type V = u8;

    closed spec fn view(&self) -> u8 {
        self.bits
    }
}

impl ModeRegisterM {
    /// Creates the power-on value, `0b0000_0011`.
    pub fn new() -> (r: Self)
        ensures
            r@ == 0b0000_0011,
    {
        ModeRegisterM { bits: 0b0000_0011 }
    }

    /// Creates a value from the register byte.
    pub fn from_bits(bits: u8) -> (r: Self)
        ensures
            r@ == bits,
    {
        ModeRegisterM { bits }
    }

    /// Returns the register byte.
    pub fn into_bits(self) -> (r: u8)
        ensures
            r == self@,
    {
        self.bits
    }

    /// Device is placed in sleep mode.
    ///
    /// Bit 1.
    pub fn sleep_mode(&self) -> (r: bool)
        ensures
            r == flag_of(self@, 1),
    {
        get_flag(self.bits, 1)
    }

    /// Returns the value with [`sleep_mode`](Self::sleep_mode) replaced by `value`.
    pub fn with_sleep_mode(self, value: bool) -> (r: Self)
        ensures
            r@ == with_field(self@, 1, 1, flag_bits(value)),
    {
        ModeRegisterM { bits: put_flag(self.bits, 1, value) }
    }

    /// Sets [`sleep_mode`](Self::sleep_mode) to `value`.
    pub fn set_sleep_mode(&mut self, value: bool)
        ensures
            final(self)@ == with_field(old(self)@, 1, 1, flag_bits(value)),
    {
        self.bits = put_flag(self.bits, 1, value);
    }

    /// Enables single conversion mode.
    ///
    /// * `false` - continuous conversion mode
    /// * `true` - single conversion mode
    ///
    /// Bit 0.
    pub fn single_conversion(&self) -> (r: bool)
        ensures
            r == flag_of(self@, 0),
    {
        get_flag(self.bits, 0)
    }

    /// Returns the value with [`single_conversion`](Self::single_conversion) replaced by `value`.
    pub fn with_single_conversion(self, value: bool) -> (r: Self)
        ensures
            r@ == with_field(self@, 0, 1, flag_bits(value)),
    {
        ModeRegisterM { bits: put_flag(self.bits, 0, value) }
    }

    /// Sets [`single_conversion`](Self::single_conversion) to `value`.
    pub fn set_single_conversion(&mut self, value: bool)
        ensures
            final(self)@ == with_field(old(self)@, 0, 1, flag_bits(value)),
    {
        self.bits = put_flag(self.bits, 0, value);
    }
}

impl Default for ModeRegisterM {
    /// The power-on value, `0b0000_0011`.
    fn default() -> (r: Self)
        ensures
            r@ == 0b0000_0011,
    {
        Self::new()
    }
}

impl Register for ModeRegisterM {
    open spec fn raw_bits(&self) -> u8 {
        self@
    }

    closed spec fn spec_from_bits(bits: u8) -> Self {
        ModeRegisterM { bits }
    }

    open spec fn spec_device_address() -> u8 {
        DEFAULT_DEVICE_ADDRESS
    }

    open spec fn spec_register_address() -> u8 {
        RegisterAddress::MR_REG_M.spec_addr()
    }

    fn device_address() -> (r: u8) {
        DEFAULT_DEVICE_ADDRESS
    }

    fn register_address() -> (r: u8) {
        RegisterAddress::MR_REG_M.addr()
    }

    fn from_bits(bits: u8) -> (r: Self) {
        ModeRegisterM { bits }
    }

    fn to_bits(&self) -> (r: u8) {
        self.bits
    }

    proof fn lemma_round_trip(value: Self, bits: u8) {
    }
}

impl WritableRegister for ModeRegisterM {

}

/// `OUT_X_H_M` (03h)
///
/// High byte of the 16-bit X-axis magnetic field value. See [`OutXLowM`] for
/// the low byte.
///
/// The magnetometer outputs are big endian, the high byte at the lower
/// address, and the axes follow each other in X, Z, Y order. Both differ
/// from the accelerometer and temperature registers.
#[derive(Clone, Copy, Debug, PartialEq, Eq, Structural)]
pub struct OutXHighM {
    bits: u8,
}

impl View for OutXHighM {
    type V = u8;

    closed spec fn view(&self) -> u8 {
        self.bits
    }
}

impl OutXHighM {
    /// Creates the power-on value, `0b0000_0000`.
    pub fn new() -> (r: Self)
        ensures
            r@ == 0b0000_0000,
    {
        OutXHighM { bits: 0b0000_0000 }
    }

    /// Creates a value from the register byte.
    pub fn from_bits(bits: u8) -> (r: Self)
        ensures
            r@ == bits,
    {
        OutXHighM { bits }
    }

    /// Returns the register byte.
    pub fn into_bits(self) -> (r: u8)
        ensures
            r == self@,
    {
        self.bits
    }

    /// High byte of the X-axis value.
    ///
    /// Together with [`OutXLowM`] this forms a reading in two's complement.
    ///
    /// Bits 0..8.
    pub fn bits(&self) -> (r: u8)
        ensures
            r == self@,
    {
        self.bits
    }
}

impl Default for OutXHighM {
    /// The power-on value, `0b0000_0000`.
    fn default() -> (r: Self)
        ensures
            r@ == 0b0000_0000,
    {
        Self::new()
    }
}

impl Register for OutXHighM {
    open spec fn raw_bits(&self) -> u8 {
        self@
    }

    closed spec fn spec_from_bits(bits: u8) -> Self {
        OutXHighM { bits }
    }

    open spec fn spec_device_address() -> u8 {
        DEFAULT_DEVICE_ADDRESS
    }

    open spec fn spec_register_address() -> u8 {
        RegisterAddress::OUT_X_H_M.spec_addr()
    }

    fn device_address() -> (r: u8) {
        DEFAULT_DEVICE_ADDRESS
    }

    fn register_address() -> (r: u8) {
        RegisterAddress::OUT_X_H_M.addr()
    }

    fn from_bits(bits: u8) -> (r: Self) {
        OutXHighM { bits }
    }

    fn to_bits(&self) -> (r: u8) {
        self.bits
    }

    proof fn lemma_round_trip(value: Self, bits: u8) {
    }
}

/// `OUT_X_L_M` (04h)
///
/// Low byte of the 16-bit X-axis magnetic field value. See [`OutXHighM`] for
/// the high byte.
///
/// The magnetometer outputs are big endian, the high byte at the lower
/// address, and the axes follow each other in X, Z, Y order. Both differ
/// from the accelerometer and temperature registers.
#[derive(Clone, Copy, Debug, PartialEq, Eq, Structural)]
pub struct OutXLowM {
    bits: u8,
}

impl View for OutXLowM {
    type V = u8;

    closed spec fn view(&self) -> u8 {
        self.bits
    }
}

impl OutXLowM {
    /// Creates the power-on value, `0b0000_0000`.
    pub fn new() -> (r: Self)
        ensures
            r@ == 0b0000_0000,
    {
        OutXLowM { bits: 0b0000_0000 }
    }

    /// Creates a value from the register byte.
    pub fn from_bits(bits: u8) -> (r: Self)
        ensures
            r@ == bits,
    {
        OutXLowM { bits }
    }

    /// Returns the register byte.
    pub fn into_bits(self) -> (r: u8)
        ensures
            r == self@,
    {
        self.bits
    }

    /// Low byte of the X-axis value.
    ///
    /// Together with [`OutXHighM`] this forms a reading in two's complement.
    ///
    /// Bits 0..8.
    pub fn bits(&self) -> (r: u8)
        ensures
            r == self@,
    {
        self.bits
    }
}

impl Default for OutXLowM {
    /// The power-on value, `0b0000_0000`.
    fn default() -> (r: Self)
        ensures
            r@ == 0b0000_0000,
    {
        Self::new()
    }
}

impl Register for OutXLowM {
    open spec fn raw_bits(&self) -> u8 {
        self@
    }

    closed spec fn spec_from_bits(bits: u8) -> Self {
        OutXLowM { bits }
    }

    open spec fn spec_device_address() -> u8 {
        DEFAULT_DEVICE_ADDRESS
    }

    open spec fn spec_register_address() -> u8 {
        RegisterAddress::OUT_X_L_M.spec_addr()
    }

    fn device_address() -> (r: u8) {
        DEFAULT_DEVICE_ADDRESS
    }

    fn register_address() -> (r: u8) {
        RegisterAddress::OUT_X_L_M.addr()
    }

    fn from_bits(bits: u8) -> (r: Self) {
        OutXLowM { bits }
    }

    fn to_bits(&self) -> (r: u8) {
        self.bits
    }

    proof fn lemma_round_trip(value: Self, bits: u8) {
    }
}

/// `OUT_Z_H_M` (05h)
///
/// High byte of the 16-bit Z-axis magnetic field value. See [`OutZLowM`] for
/// the low byte.
///
/// The magnetometer outputs are big endian, the high byte at the lower
/// address, and the axes follow each other in X, Z, Y order. Both differ
/// from the accelerometer and temperature registers.
#[derive(Clone, Copy, Debug, PartialEq, Eq, Structural)]
pub struct OutZHighM {
    bits: u8,
}

impl View for OutZHighM {
    type V = u8;

    closed spec fn view(&self) -> u8 {
        self.bits
    }
}

impl OutZHighM {
    /// Creates the power-on value, `0b0000_0000`.
    pub fn new() -> (r: Self)
        ensures
            r@ == 0b0000_0000,
    {
        OutZHighM { bits: 0b0000_0000 }
    }

    /// Creates a value from the register byte.
    pub fn from_bits(bits: u8) -> (r: Self)
        ensures
            r@ == bits,
    {
        OutZHighM { bits }
    }

    /// Returns the register byte.
    pub fn into_bits(self) -> (r: u8)
        ensures
            r == self@,
    {
        self.bits
    }

    /// High byte of the Z-axis value.
    ///
    /// Together with [`OutZLowM`] this forms a reading in two's complement.
    ///
    /// Bits 0..8.
    pub fn bits(&self) -> (r: u8)
        ensures
            r == self@,
    {
        self.bits
    }
}

impl Default for OutZHighM {
    /// The power-on value, `0b0000_0000`.
    fn default() -> (r: Self)
        ensures
            r@ == 0b0000_0000,
    {
        Self::new()
    }
}

impl Register for OutZHighM {
    open spec fn raw_bits(&self) -> u8 {
        self@
    }

    closed spec fn spec_from_bits(bits: u8) -> Self {
        OutZHighM { bits }
    }

    open spec fn spec_device_address() -> u8 {
        DEFAULT_DEVICE_ADDRESS
    }

    open spec fn spec_register_address() -> u8 {
        RegisterAddress::OUT_Z_H_M.spec_addr()
    }

    fn device_address() -> (r: u8) {
        DEFAULT_DEVICE_ADDRESS
    }

    fn register_address() -> (r: u8) {
        RegisterAddress::OUT_Z_H_M.addr()
    }

    fn from_bits(bits: u8) -> (r: Self) {
        OutZHighM { bits }
    }

    fn to_bits(&self) -> (r: u8) {
        self.bits
    }

    proof fn lemma_round_trip(value: Self, bits: u8) {
    }
}

/// `OUT_Z_L_M` (06h)
///
/// Low byte of the 16-bit Z-axis magnetic field value. See [`OutZHighM`] for
/// the high byte.
///
/// The magnetometer outputs are big endian, the high byte at the lower
/// address, and the axes follow each other in X, Z, Y order. Both differ
/// from the accelerometer and temperature registers.
#[derive(Clone, Copy, Debug, PartialEq, Eq, Structural)]
pub struct OutZLowM {
    bits: u8,
}

impl View for OutZLowM {
    type V = u8;

    closed spec fn view(&self) -> u8 {
        self.bits
    }
}

impl OutZLowM {
    /// Creates the power-on value, `0b0000_0000`.
    pub fn new() -> (r: Self)
        ensures
            r@ == 0b0000_0000,
    {
        OutZLowM { bits: 0b0000_0000 }
    }

    /// Creates a value from the register byte.
    pub fn from_bits(bits: u8) -> (r: Self)
        ensures
            r@ == bits,
    {
        OutZLowM { bits }
    }

    /// Returns the register byte.
    pub fn into_bits(self) -> (r: u8)
        ensures
            r == self@,
    {
        self.bits
    }

    /// Low byte of the Z-axis value.
    ///
    /// Together with [`OutZHighM`] this forms a reading in two's complement.
    ///
    /// Bits 0..8.
    pub fn bits(&self) -> (r: u8)
        ensures
            r == self@,
    {
        self.bits
    }
}

impl Default for OutZLowM {
    /// The power-on value, `0b0000_0000`.
    fn default() -> (r: Self)
        ensures
            r@ == 0b0000_0000,
    {
        Self::new()
    }
}

impl Register for OutZLowM {
    open spec fn raw_bits(&self) -> u8 {
        self@
    }

    closed spec fn spec_from_bits(bits: u8) -> Self {
        OutZLowM { bits }
    }

    open spec fn spec_device_address() -> u8 {
        DEFAULT_DEVICE_ADDRESS
    }

    open spec fn spec_register_address() -> u8 {
        RegisterAddress::OUT_Z_L_M.spec_addr()
    }

    fn device_address() -> (r: u8) {
        DEFAULT_DEVICE_ADDRESS
    }

    fn register_address() -> (r: u8) {
        RegisterAddress::OUT_Z_L_M.addr()
    }

    fn from_bits(bits: u8) -> (r: Self) {
        OutZLowM { bits }
    }

    fn to_bits(&self) -> (r: u8) {
        self.bits
    }

    proof fn lemma_round_trip(value: Self, bits: u8) {
    }
}

/// `OUT_Y_H_M` (07h)
///
/// High byte of the 16-bit Y-axis magnetic field value. See [`OutYLowM`] for
/// the low byte.
///
/// The magnetometer outputs are big endian, the high byte at the lower
/// address, and the axes follow each other in X, Z, Y order. Both differ
/// from the accelerometer and temperature registers.
#[derive(Clone, Copy, Debug, PartialEq, Eq, Structural)]
pub struct OutYHighM {
    bits: u8,
}

impl View for OutYHighM {
    type V = u8;

    closed spec fn view(&self) -> u8 {
        self.bits
    }
}

impl OutYHighM {
    /// Creates the power-on value, `0b0000_0000`.
    pub fn new() -> (r: Self)
        ensures
            r@ == 0b0000_0000,
    {
        OutYHighM { bits: 0b0000_0000 }
    }

    /// Creates a value from the register byte.
    pub fn from_bits(bits: u8) -> (r: Self)
        ensures
            r@ == bits,
    {
        OutYHighM { bits }
    }

    /// Returns the register byte.
    pub fn into_bits(self) -> (r: u8)
        ensures
            r == self@,
    {
        self.bits
    }

    /// High byte of the Y-axis value.
    ///
    /// Together with [`OutYLowM`] this forms a reading in two's complement.
    ///
    /// Bits 0..8.
    pub fn bits(&self) -> (r: u8)
        ensures
            r == self@,
    {
        self.bits
    }
}

impl Default for OutYHighM {
    /// The power-on value, `0b0000_0000`.
    fn default() -> (r: Self)
        ensures
            r@ == 0b0000_0000,
    {
        Self::new()
    }
}

impl Register for OutYHighM {
    open spec fn raw_bits(&self) -> u8 {
        self@
    }

    closed spec fn spec_from_bits(bits: u8) -> Self {
        OutYHighM { bits }
    }

    open spec fn spec_device_address() -> u8 {
        DEFAULT_DEVICE_ADDRESS
    }

    open spec fn spec_register_address() -> u8 {
        RegisterAddress::OUT_Y_H_M.spec_addr()
    }

    fn device_address() -> (r: u8) {
        DEFAULT_DEVICE_ADDRESS
    }

    fn register_address() -> (r: u8) {
        RegisterAddress::OUT_Y_H_M.addr()
    }

    fn from_bits(bits: u8) -> (r: Self) {
        OutYHighM { bits }
    }

    fn to_bits(&self) -> (r: u8) {
        self.bits
    }

    proof fn lemma_round_trip(value: Self, bits: u8) {
    }
}

/// `OUT_Y_L_M` (08h)
///
/// Low byte of the 16-bit Y-axis magnetic field value. See [`OutYHighM`] for
/// the high byte.
///
/// The magnetometer outputs are big endian, the high byte at the lower
/// address, and the axes follow each other in X, Z, Y order. Both differ
/// from the accelerometer and temperature registers.
#[derive(Clone, Copy, Debug, PartialEq, Eq, Structural)]
pub struct OutYLowM {
    bits: u8,
}

impl View for OutYLowM {
    type V = u8;

    closed spec fn view(&self) -> u8 {
        self.bits
    }
}

impl OutYLowM {
    /// Creates the power-on value, `0b0000_0000`.
    pub fn new() -> (r: Self)
        ensures
            r@ == 0b0000_0000,
    {
        OutYLowM { bits: 0b0000_0000 }
    }

    /// Creates a value from the register byte.
    pub fn from_bits(bits: u8) -> (r: Self)
        ensures
            r@ == bits,
    {
        OutYLowM { bits }
    }

    /// Returns the register byte.
    pub fn into_bits(self) -> (r: u8)
        ensures
            r == self@,
    {
        self.bits
    }

    /// Low byte of the Y-axis value.
    ///
    /// Together with [`OutYHighM`] this forms a reading in two's complement.
    ///
    /// Bits 0..8.
    pub fn bits(&self) -> (r: u8)
        ensures
            r == self@,
    {
        self.bits
    }
}

impl Default for OutYLowM {
    /// The power-on value, `0b0000_0000`.
    fn default() -> (r: Self)
        ensures
            r@ == 0b0000_0000,
    {
        Self::new()
    }
}

impl Register for OutYLowM {
    open spec fn raw_bits(&self) -> u8 {
        self@
    }

    closed spec fn spec_from_bits(bits: u8) -> Self {
        OutYLowM { bits }
    }

    open spec fn spec_device_address() -> u8 {
        DEFAULT_DEVICE_ADDRESS
    }

    open spec fn spec_register_address() -> u8 {
        RegisterAddress::OUT_Y_L_M.spec_addr()
    }

    fn device_address() -> (r: u8) {
        DEFAULT_DEVICE_ADDRESS
    }

    fn register_address() -> (r: u8) {
        RegisterAddress::OUT_Y_L_M.addr()
    }

    fn from_bits(bits: u8) -> (r: Self) {
        OutYLowM { bits }
    }

    fn to_bits(&self) -> (r: u8) {
        self.bits
    }

    proof fn lemma_round_trip(value: Self, bits: u8) {
    }
}

/// `SR_REG_M` (09h): data status.
#[derive(Clone, Copy, Debug, PartialEq, Eq, Structural)]
pub struct StatusRegisterM {
    bits: u8,
}

impl View for StatusRegisterM {
    type V = u8;

    closed spec fn view(&self) -> u8 {
        self.bits
    }
}

impl StatusRegisterM {
    /// Creates the power-on value, `0b0000_0000`.
    pub fn new() -> (r: Self)
        ensures
            r@ == 0b0000_0000,
    {
        StatusRegisterM { bits: 0b0000_0000 }
    }

    /// Creates a value from the register byte.
    pub fn from_bits(bits: u8) -> (r: Self)
        ensures
            r@ == bits,
    {
        StatusRegisterM { bits }
    }

    /// Returns the register byte.
    pub fn into_bits(self) -> (r: u8)
        ensures
            r == self@,
    {
        self.bits
    }

    /// Data output register lock. Set once a new set of measurements is
    /// available and the first output register has been read.
    ///
    /// Bit 1.
    pub fn do_lock(&self) -> (r: bool)
        ensures
            r == flag_of(self@, 1),
    {
        get_flag(self.bits, 1)
    }

    /// Data ready: a new set of measurements is available.
    ///
    /// Bit 0.
    pub fn data_ready(&self) -> (r: bool)
        ensures
            r == flag_of(self@, 0),
    {
        get_flag(self.bits, 0)
    }
}

impl Default for StatusRegisterM {
    /// The power-on value, `0b0000_0000`.
    fn default() -> (r: Self)
        ensures
            r@ == 0b0000_0000,
    {
        Self::new()
    }
}

impl Register for StatusRegisterM {
    open spec fn raw_bits(&self) -> u8 {
        self@
    }

    closed spec fn spec_from_bits(bits: u8) -> Self {
        StatusRegisterM { bits }
    }

    open spec fn spec_device_address() -> u8 {
        DEFAULT_DEVICE_ADDRESS
    }

    open spec fn spec_register_address() -> u8 {
        RegisterAddress::SR_REG_M.spec_addr()
    }

    fn device_address() -> (r: u8) {
        DEFAULT_DEVICE_ADDRESS
    }

    fn register_address() -> (r: u8) {
        RegisterAddress::SR_REG_M.addr()
    }

    fn from_bits(bits: u8) -> (r: Self) {
        StatusRegisterM { bits }
    }

    fn to_bits(&self) -> (r: u8) {
        self.bits
    }

    proof fn lemma_round_trip(value: Self, bits: u8) {
    }
}

/// `IRA_REG_M` (0Ah): identification register A.
#[derive(Clone, Copy, Debug, PartialEq, Eq, Structural)]
pub struct IdentificationARegisterM {
    bits: u8,
}

impl View for IdentificationARegisterM {
    type V = u8;

    closed spec fn view(&self) -> u8 {
        self.bits
    }
}

impl IdentificationARegisterM {
    /// Creates the power-on value, `0b0100_1000`.
    pub fn new() -> (r: Self)
        ensures
            r@ == 0b0100_1000,
    {
        IdentificationARegisterM { bits: 0b0100_1000 }
    }

    /// Creates a value from the register byte.
    pub fn from_bits(bits: u8) -> (r: Self)
        ensures
            r@ == bits,
    {
        IdentificationARegisterM { bits }
    }

    /// Returns the register byte.
    pub fn into_bits(self) -> (r: u8)
        ensures
            r == self@,
    {
        self.bits
    }

    /// Always `01001000`, ASCII `H`.
    ///
    /// Bits 0..8.
    pub fn value(&self) -> (r: u8)
        ensures
            r == self@,
    {
        self.bits
    }
}

impl Default for IdentificationARegisterM {
    /// The power-on value, `0b0100_1000`.
    fn default() -> (r: Self)
        ensures
            r@ == 0b0100_1000,
    {
        Self::new()
    }
}

impl Register for IdentificationARegisterM {
    open spec fn raw_bits(&self) -> u8 {
        self@
    }

    closed spec fn spec_from_bits(bits: u8) -> Self {
        IdentificationARegisterM { bits }
    }

    open spec fn spec_device_address() -> u8 {
        DEFAULT_DEVICE_ADDRESS
    }

    open spec fn spec_register_address() -> u8 {
        RegisterAddress::IRA_REG_M.spec_addr()
    }

    fn device_address() -> (r: u8) {
        DEFAULT_DEVICE_ADDRESS
    }

    fn register_address() -> (r: u8) {
        RegisterAddress::IRA_REG_M.addr()
    }

    fn from_bits(bits: u8) -> (r: Self) {
        IdentificationARegisterM { bits }
    }

    fn to_bits(&self) -> (r: u8) {
        self.bits
    }

    proof fn lemma_round_trip(value: Self, bits: u8) {
    }
}

/// `IRB_REG_M` (0Bh): identification register B.
#[derive(Clone, Copy, Debug, PartialEq, Eq, Structural)]
pub struct IdentificationBRegisterM {
    bits: u8,
}

impl View for IdentificationBRegisterM {
    type V = u8;

    closed spec fn view(&self) -> u8 {
        self.bits
    }
}

impl IdentificationBRegisterM {
    /// Creates the power-on value, `0b0011_0100`.
    pub fn new() -> (r: Self)
        ensures
            r@ == 0b0011_0100,
    {
        IdentificationBRegisterM { bits: 0b0011_0100 }
    }

    /// Creates a value from the register byte.
    pub fn from_bits(bits: u8) -> (r: Self)
        ensures
            r@ == bits,
    {
        IdentificationBRegisterM { bits }
    }

    /// Returns the register byte.
    pub fn into_bits(self) -> (r: u8)
        ensures
            r == self@,
    {
        self.bits
    }

    /// Always `00110100`, ASCII `4`.
    ///
    /// Bits 0..8.
    pub fn value(&self) -> (r: u8)
        ensures
            r == self@,
    {
        self.bits
    }
}

impl Default for IdentificationBRegisterM {
    /// The power-on value, `0b0011_0100`.
    fn default() -> (r: Self)
        ensures
            r@ == 0b0011_0100,
    {
        Self::new()
    }
}

impl Register for IdentificationBRegisterM {
    open spec fn raw_bits(&self) -> u8 {
        self@
    }

    closed spec fn spec_from_bits(bits: u8) -> Self {
        IdentificationBRegisterM { bits }
    }

    open spec fn spec_device_address() -> u8 {
        DEFAULT_DEVICE_ADDRESS
    }

    open spec fn spec_register_address() -> u8 {
        RegisterAddress::IRB_REG_M.spec_addr()
    }

    fn device_address() -> (r: u8) {
        DEFAULT_DEVICE_ADDRESS
    }

    fn register_address() -> (r: u8) {
        RegisterAddress::IRB_REG_M.addr()
    }

    fn from_bits(bits: u8) -> (r: Self) {
        IdentificationBRegisterM { bits }
    }

    fn to_bits(&self) -> (r: u8) {
        self.bits
    }

    proof fn lemma_round_trip(value: Self, bits: u8) {
    }
}

/// `IRC_REG_M` (0Ch): identification register C.
#[derive(Clone, Copy, Debug, PartialEq, Eq, Structural)]
pub struct IdentificationCRegisterM {
    bits: u8,
}

impl View for IdentificationCRegisterM {
    type V = u8;

    closed spec fn view(&self) -> u8 {
        self.bits
    }
}

impl IdentificationCRegisterM {
    /// Creates the power-on value, `0b0011_0011`.
    pub fn new() -> (r: Self)
        ensures
            r@ == 0b0011_0011,
    {
        IdentificationCRegisterM { bits: 0b0011_0011 }
    }

    /// Creates a value from the register byte.
    pub fn from_bits(bits: u8) -> (r: Self)
        ensures
            r@ == bits,
    {
        IdentificationCRegisterM { bits }
    }

    /// Returns the register byte.
    pub fn into_bits(self) -> (r: u8)
        ensures
            r == self@,
    {
        self.bits
    }

    /// Always `00110011`, ASCII `3`.
    ///
    /// Bits 0..8.
    pub fn value(&self) -> (r: u8)
        ensures
            r == self@,
    {
        self.bits
    }
}

impl Default for IdentificationCRegisterM {
    /// The power-on value, `0b0011_0011`.
    fn default() -> (r: Self)
        ensures
            r@ == 0b0011_0011,
    {
        Self::new()
    }
}

impl Register for IdentificationCRegisterM {
    open spec fn raw_bits(&self) -> u8 {
        self@
    }

    closed spec fn spec_from_bits(bits: u8) -> Self {
        IdentificationCRegisterM { bits }
    }

    open spec fn spec_device_address() -> u8 {
        DEFAULT_DEVICE_ADDRESS
    }

    open spec fn spec_register_address() -> u8 {
        RegisterAddress::IRC_REG_M.spec_addr()
    }

    fn device_address() -> (r: u8) {
        DEFAULT_DEVICE_ADDRESS
    }

    fn register_address() -> (r: u8) {
        RegisterAddress::IRC_REG_M.addr()
    }

    fn from_bits(bits: u8) -> (r: Self) {
        IdentificationCRegisterM { bits }
    }

    fn to_bits(&self) -> (r: u8) {
        self.bits
    }

    proof fn lemma_round_trip(value: Self, bits: u8) {
    }
}

/// `TEMP_OUT_H_M` (31h)
///
/// High byte of the 12-bit temperature reading. Together with
/// [`TemperatureOutLowM`] it forms a two's complement value with 8 LSB/deg.
#[derive(Clone, Copy, Debug, PartialEq, Eq, Structural)]
pub struct TemperatureOutHighM {
    bits: u8,
}

impl View for TemperatureOutHighM {
    type V = u8;

    closed spec fn view(&self) -> u8 {
        self.bits
    }
}

impl TemperatureOutHighM {
    /// Creates the power-on value, `0b0000_0000`.
    pub fn new() -> (r: Self)
        ensures
            r@ == 0b0000_0000,
    {
        TemperatureOutHighM { bits: 0b0000_0000 }
    }

    /// Creates a value from the register byte.
    pub fn from_bits(bits: u8) -> (r: Self)
        ensures
            r@ == bits,
    {
        TemperatureOutHighM { bits }
    }

    /// Returns the register byte.
    pub fn into_bits(self) -> (r: u8)
        ensures
            r == self@,
    {
        self.bits
    }

    /// The upper eight bits of the temperature reading.
    ///
    /// Bits 0..8.
    pub fn value(&self) -> (r: u8)
        ensures
            r == self@,
    {
        self.bits
    }
}

impl Default for TemperatureOutHighM {
    /// The power-on value, `0b0000_0000`.
    fn default() -> (r: Self)
        ensures
            r@ == 0b0000_0000,
    {
        Self::new()
    }
}

impl Register for TemperatureOutHighM {
    open spec fn raw_bits(&self) -> u8 {
        self@
    }

    closed spec fn spec_from_bits(bits: u8) -> Self {
        TemperatureOutHighM { bits }
    }

    open spec fn spec_device_address() -> u8 {
        DEFAULT_DEVICE_ADDRESS
    }

    open spec fn spec_register_address() -> u8 {
        RegisterAddress::TEMP_OUT_H_M.spec_addr()
    }

    fn device_address() -> (r: u8) {
        DEFAULT_DEVICE_ADDRESS
    }

    fn register_address() -> (r: u8) {
        RegisterAddress::TEMP_OUT_H_M.addr()
    }

    fn from_bits(bits: u8) -> (r: Self) {
        TemperatureOutHighM { bits }
    }

    fn to_bits(&self) -> (r: u8) {
        self.bits
    }

    proof fn lemma_round_trip(value: Self, bits: u8) {
    }
}

/// `TEMP_OUT_L_M` (32h)
///
/// Low bits of the 12-bit temperature reading. Together with
/// [`TemperatureOutHighM`] it forms a two's complement value with 8 LSB/deg.
#[derive(Clone, Copy, Debug, PartialEq, Eq, Structural)]
pub struct TemperatureOutLowM {
    bits: u8,
}

impl View for TemperatureOutLowM {
    type V = u8;

    closed spec fn view(&self) -> u8 {
        self.bits
    }
}

impl TemperatureOutLowM {
    /// Creates the power-on value, `0b0000_0000`.
    pub fn new() -> (r: Self)
        ensures
            r@ == 0b0000_0000,
    {
        TemperatureOutLowM { bits: 0b0000_0000 }
    }

    /// Creates a value from the register byte.
    pub fn from_bits(bits: u8) -> (r: Self)
        ensures
            r@ == bits,
    {
        TemperatureOutLowM { bits }
    }

    /// Returns the register byte.
    pub fn into_bits(self) -> (r: u8)
        ensures
            r == self@,
    {
        self.bits
    }

    /// The lower nibble of the temperature reading.
    ///
    /// Bits 4..8.
    pub fn value(&self) -> (r: u8)
        ensures
            r == field_of(self@, 4, 4),
    {
        get_field(self.bits, 4, 4)
    }
}

impl Default for TemperatureOutLowM {
    /// The power-on value, `0b0000_0000`.
    fn default() -> (r: Self)
        ensures
            r@ == 0b0000_0000,
    {
        Self::new()
    }
}

impl Register for TemperatureOutLowM {
    open spec fn raw_bits(&self) -> u8 {
        self@
    }

    closed spec fn spec_from_bits(bits: u8) -> Self {
        TemperatureOutLowM { bits }
    }

    open spec fn spec_device_address() -> u8 {
        DEFAULT_DEVICE_ADDRESS
    }

    open spec fn spec_register_address() -> u8 {
        RegisterAddress::TEMP_OUT_L_M.spec_addr()
    }

    fn device_address() -> (r: u8) {
        DEFAULT_DEVICE_ADDRESS
    }

    fn register_address() -> (r: u8) {
        RegisterAddress::TEMP_OUT_L_M.addr()
    }

    fn from_bits(bits: u8) -> (r: Self) {
        TemperatureOutLowM { bits }
    }

    fn to_bits(&self) -> (r: u8) {
        self.bits
    }

    proof fn lemma_round_trip(value: Self, bits: u8) {
    }
}

} // verus!
