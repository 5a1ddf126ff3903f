//! The interface shared by every register type.
use vstd::prelude::*;

verus! {

/// A one-byte register of the sensor package.
///
/// A value of a register type stands for exactly one byte, the byte it
/// encodes to, reserved bits included. So decoding any byte and encoding the
/// result gives that byte back, and encoding a value and decoding the byte
/// gives the value back.
pub trait Register: Sized + Copy {
    /// The byte this value encodes to.
    spec fn raw_bits(&self) -> u8;

    /// The value that a byte decodes to.
    spec fn spec_from_bits(bits: u8) -> Self;

    /// The 7-bit bus address of the sub-device that holds the register.
    spec fn spec_device_address() -> u8;

    /// The sub-address of the register within its sub-device.
    spec fn spec_register_address() -> u8;

    /// The 7-bit bus address of the sub-device that holds the register.
    fn device_address() -> (r: u8)
        ensures
            r == Self::spec_device_address(),
    ;

    /// The sub-address of the register within its sub-device.
    fn register_address() -> (r: u8)
        ensures
            r == Self::spec_register_address(),
    ;

    /// Decodes a byte read from the device; every byte is accepted.
    fn from_bits(bits: u8) -> (r: Self)
        ensures
            r == Self::spec_from_bits(bits),
            r.raw_bits() == bits,
    ;

    /// Encodes the value into the byte written to the device.
    fn to_bits(&self) -> (r: u8)
        ensures
            r == self.raw_bits(),
    ;

    /// Decoding inverts encoding and encoding inverts decoding.
    proof fn lemma_round_trip(value: Self, bits: u8)
        ensures
            Self::spec_from_bits(value.raw_bits()) == value,
            Self::spec_from_bits(bits).raw_bits() == bits,
    ;
}

/// A register that may be written.
///
/// Only the read-write registers implement this trait, so a write to a
/// read-only register does not compile.
pub trait WritableRegister: Register {

}

/// For every register type, `decode(encode(v)) == v` for every value `v`,
/// and `encode(decode(b)) == b` for every byte `b`.
pub proof fn lemma_register_round_trip<R: Register>(value: R, bits: u8)
    ensures
        R::spec_from_bits(value.raw_bits()) == value,
        R::spec_from_bits(bits).raw_bits() == bits,
{
    R::lemma_round_trip(value, bits);
}

} // verus!
