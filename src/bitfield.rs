//! Packing of named bit-fields into a register byte.
//!
//! A field is given by its `offset` (position of its least significant bit)
//! and its `width`. Every register type of this crate stores its raw byte and
//! reads and writes its fields through the functions of this module, so the
//! bit layout is proved once, here.
use vstd::prelude::*;

verus! {

/// A value does not fit in the bit-field it was meant for.
#[derive(Clone, Copy, Debug, PartialEq, Eq, Structural)]
pub struct InvalidField;

/// A field of `width` bits at `offset` lies inside one byte.
pub open spec fn field_fits(offset: u8, width: u8) -> bool {
    1 <= width && offset + width <= 8
}

/// The mask of the `width` least significant bits of a byte, that is
/// `2^width - 1`; the largest value a field of that width holds.
pub open spec fn low_mask(width: u8) -> u8 {
    if width == 1 {
        1
    } else if width == 2 {
        3
    } else if width == 3 {
        7
    } else if width == 4 {
        15
    } else if width == 5 {
        31
    } else if width == 6 {
        63
    } else if width == 7 {
        127
    } else if width == 8 {
        255
    } else {
        0
    }
}

/// The value of the `width`-bit field at `offset` of `byte`.
pub open spec fn field_of(byte: u8, offset: u8, width: u8) -> u8 {
    (byte >> offset) & low_mask(width)
}

/// `byte` with the `width`-bit field at `offset` replaced by `value`; all
/// other bits are kept.
pub open spec fn with_field(byte: u8, offset: u8, width: u8, value: u8) -> u8 {
    (byte & !(low_mask(width) << offset)) | ((value & low_mask(width)) << offset)
}

/// The single bit at `offset` of `byte` is set.
pub open spec fn flag_of(byte: u8, offset: u8) -> bool {
    field_of(byte, offset, 1) == 1
}

/// The one-bit encoding of a flag.
pub open spec fn flag_bits(flag: bool) -> u8 {
    if flag {
        1
    } else {
        0
    }
}

/// A field never holds more than its width allows.
pub proof fn lemma_field_of_bounded(byte: u8, offset: u8, width: u8)
    requires
        field_fits(offset, width),
    ensures
        field_of(byte, offset, width) <= low_mask(width),
{
    assert(field_of(byte, offset, width) <= low_mask(width)) by (bit_vector)
        requires
            1 <= width,
            offset + width <= 8,
    ;
}

/// Reading a field back after writing it gives the value written.
pub proof fn lemma_field_of_with_field_same(byte: u8, offset: u8, width: u8, value: u8)
    requires
        field_fits(offset, width),
        value <= low_mask(width),
    ensures
        field_of(with_field(byte, offset, width, value), offset, width) == value,
{
    assert(field_of(with_field(byte, offset, width, value), offset, width) == value)
        by (bit_vector)
        requires
            1 <= width,
            offset + width <= 8,
            value <= low_mask(width),
    ;
}

/// Writing a field leaves every field that does not overlap it unchanged.
pub proof fn lemma_field_of_with_field_other(
    byte: u8,
    offset: u8,
    width: u8,
    value: u8,
    other_offset: u8,
    other_width: u8,
)
    requires
        field_fits(offset, width),
        field_fits(other_offset, other_width),
        offset + width <= other_offset || other_offset + other_width <= offset,
    ensures
        field_of(with_field(byte, offset, width, value), other_offset, other_width)
            == field_of(byte, other_offset, other_width),
{
    assert(field_of(with_field(byte, offset, width, value), other_offset, other_width)
        == field_of(byte, other_offset, other_width)) by (bit_vector)
        requires
            1 <= width,
            offset + width <= 8,
            1 <= other_width,
            other_offset + other_width <= 8,
            offset + width <= other_offset || other_offset + other_width <= offset,
    ;
}

/// Writing back the value a field already holds changes nothing.
pub proof fn lemma_with_field_of_self(byte: u8, offset: u8, width: u8)
    requires
        field_fits(offset, width),
    ensures
        with_field(byte, offset, width, field_of(byte, offset, width)) == byte,
{
    assert(with_field(byte, offset, width, field_of(byte, offset, width)) == byte)
        by (bit_vector)
        requires
            1 <= width,
            offset + width <= 8,
    ;
}

/// Reads the `width`-bit field at `offset` of `byte`.
pub fn get_field(byte: u8, offset: u8, width: u8) -> (r: u8)
    requires
        field_fits(offset, width),
    ensures
        r == field_of(byte, offset, width),
        r <= low_mask(width),
{
    proof {
        lemma_field_of_bounded(byte, offset, width);
    }
    let mask: u8 = 0xffu8 >> (8 - width);
    assert(mask == low_mask(width)) by (bit_vector)
        requires
            mask == 0xffu8 >> ((8 - width) as u8),
            1 <= width <= 8,
    ;
    (byte >> offset) & mask
}

/// Returns `byte` with the `width`-bit field at `offset` set to `value`.
pub fn put_field(byte: u8, offset: u8, width: u8, value: u8) -> (r: u8)
    requires
        field_fits(offset, width),
        value <= low_mask(width),
    ensures
        r == with_field(byte, offset, width, value),
        field_of(r, offset, width) == value,
{
    proof {
        lemma_field_of_with_field_same(byte, offset, width, value);
    }
    let mask: u8 = 0xffu8 >> (8 - width);
    assert(mask == low_mask(width)) by (bit_vector)
        requires
            mask == 0xffu8 >> ((8 - width) as u8),
            1 <= width <= 8,
    ;
    (byte & !(mask << offset)) | ((value & mask) << offset)
}

/// Reads the single bit at `offset` of `byte`.
pub fn get_flag(byte: u8, offset: u8) -> (r: bool)
    requires
        offset < 8,
    ensures
        r == flag_of(byte, offset),
{
    get_field(byte, offset, 1) == 1
}

/// Returns `byte` with the bit at `offset` set to `flag`.
pub fn put_flag(byte: u8, offset: u8, flag: bool) -> (r: u8)
    requires
        offset < 8,
    ensures
        r == with_field(byte, offset, 1, flag_bits(flag)),
        flag_of(r, offset) == flag,
{
    put_field(byte, offset, 1, if flag { 1 } else { 0 })
}

} // verus!
