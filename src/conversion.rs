//! Physical readings assembled from register bytes.
use crate::device::SubDevice;
use vstd::prelude::*;

verus! {

/// The value of the two's complement 16-bit word with bytes `high` and `low`.
pub open spec fn word_value(low: u8, high: u8) -> int {
    if high < 128 {
        high * 256 + low
    } else {
        high * 256 + low - 65536
    }
}

/// Combines a low and a high byte into a signed 16-bit value, read as two's
/// complement: `(high << 8) | low`.
pub fn combine(low: u8, high: u8) -> (r: i16)
    ensures
        r as int == word_value(low, high),
{
    let word: u16 = ((high as u16) << 8u16) | (low as u16);
    assert(word == high * 256 + low) by (bit_vector)
        requires
            word == ((high as u16) << 8u16) | (low as u16),
    ;
    assert(word < 32768 ==> word as i16 == word) by (bit_vector);
    assert(word >= 32768 ==> word as i16 == word - 65536) by (bit_vector);
    word as i16
}

/// A reading of three signed 16-bit axis values.
#[derive(Clone, Copy, Debug, PartialEq, Eq, Structural)]
pub struct I16x3 {
    /// X component.
    pub x: i16,
    /// Y component.
    pub y: i16,
    /// Z component.
    pub z: i16,
}

impl I16x3 {
    /// Creates a reading from its three components.
    pub fn new(x: i16, y: i16, z: i16) -> (r: Self)
        ensures
            r.x == x,
            r.y == y,
            r.z == z,
    {
        I16x3 { x, y, z }
    }
}

/// The reading that the six output bytes of `device`, in bus order, stand for.
///
/// The accelerometer sends X, Y, Z, each low byte first. The magnetometer
/// sends X, Z, Y, each high byte first.
pub open spec fn triple_of(raw: Seq<u8>, device: SubDevice) -> (int, int, int) {
    match device {
        SubDevice::Accelerometer => (
            word_value(raw[0], raw[1]),
            word_value(raw[2], raw[3]),
            word_value(raw[4], raw[5]),
        ),
        SubDevice::Magnetometer => (
            word_value(raw[1], raw[0]),
            word_value(raw[5], raw[4]),
            word_value(raw[3], raw[2]),
        ),
    }
}

/// Assembles the six output bytes of `device`, in the order the bus delivers
/// them, into an (x, y, z) reading.
pub fn assemble_triple(raw: [u8; 6], device: SubDevice) -> (r: I16x3)
    ensures
        (r.x as int, r.y as int, r.z as int) == triple_of(raw@, device),
{
    match device {
        SubDevice::Accelerometer => I16x3 {
            x: combine(raw[0], raw[1]),
            y: combine(raw[2], raw[3]),
            z: combine(raw[4], raw[5]),
        },
        SubDevice::Magnetometer => I16x3 {
            x: combine(raw[1], raw[0]),
            y: combine(raw[5], raw[4]),
            z: combine(raw[3], raw[2]),
        },
    }
}

} // verus!
