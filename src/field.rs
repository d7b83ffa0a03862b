//! Bit fields inside a 32-bit register word.

use vstd::prelude::*;

verus! {

/// The mask of the `width` low bits of a word.
pub open spec fn field_mask(width: u32) -> u32 {
    !(0xFFFF_FFFFu32 << width)
}

/// The value of the `width`-bit field that starts at bit `shift` of `word`.
pub open spec fn get_field(word: u32, shift: u32, width: u32) -> u32 {
    (word >> shift) & field_mask(width)
}

/// `word` with the `width`-bit field at bit `shift` replaced by `value`.
pub open spec fn put_field(word: u32, shift: u32, width: u32, value: u32) -> u32 {
    (word & !(field_mask(width) << shift)) | ((value & field_mask(width)) << shift)
}

/// A field of 1 to 8 bits that lies inside the word.
pub open spec fn field_fits(shift: u32, width: u32) -> bool {
    1 <= width <= 8 && shift + width <= 32
}

pub proof fn lemma_mask_values()
    ensures
        field_mask(1) == 1,
        field_mask(2) == 3,
        field_mask(4) == 15,
        field_mask(8) == 255,
{
    assert(!(0xFFFF_FFFFu32 << 1u32) == 1u32) by (bit_vector);
    assert(!(0xFFFF_FFFFu32 << 2u32) == 3u32) by (bit_vector);
    assert(!(0xFFFF_FFFFu32 << 4u32) == 15u32) by (bit_vector);
    assert(!(0xFFFF_FFFFu32 << 8u32) == 255u32) by (bit_vector);
}

/// A field reads back what was just written to it.
pub proof fn lemma_put_get(word: u32, shift: u32, width: u32, value: u32)
    requires
        field_fits(shift, width),
        value <= field_mask(width),
    ensures
        get_field(put_field(word, shift, width, value), shift, width) == value,
{
    assert(1 <= width <= 8 && shift <= 31 && shift + width <= 32 && value <= !(0xFFFF_FFFFu32
        << width) ==> ((((word & !(!(0xFFFF_FFFFu32 << width) << shift)) | ((value & !(0xFFFF_FFFFu32
        << width)) << shift)) >> shift) & !(0xFFFF_FFFFu32 << width)) == value) by (bit_vector);
}

/// Writing one field leaves every field that does not overlap it unchanged.
pub proof fn lemma_put_frame(word: u32, shift: u32, width: u32, value: u32, other: u32, other_width: u32)
    requires
        field_fits(shift, width),
        field_fits(other, other_width),
        shift + width <= other || other + other_width <= shift,
    ensures
        get_field(put_field(word, shift, width, value), other, other_width) == get_field(
            word,
            other,
            other_width,
        ),
{
    assert(1 <= width <= 8 && shift <= 31 && shift + width <= 32 && 1 <= other_width <= 8 && other
        <= 31 && other + other_width <= 32 && (shift + width <= other || other + other_width
        <= shift) ==> ((((word & !(!(0xFFFF_FFFFu32 << width) << shift)) | ((value & !(0xFFFF_FFFFu32
        << width)) << shift)) >> other) & !(0xFFFF_FFFFu32 << other_width)) == ((word >> other)
        & !(0xFFFF_FFFFu32 << other_width))) by (bit_vector);
}

/// Reads the `width`-bit field at bit `shift` of `word`.
pub fn read_field(word: u32, shift: u32, width: u32) -> (r: u32)
    requires
        field_fits(shift, width),
    ensures
        r == get_field(word, shift, width),
        r <= field_mask(width),
{
    let r = (word >> shift) & !(0xFFFF_FFFFu32 << width);
    assert(((word >> shift) & !(0xFFFF_FFFFu32 << width)) <= !(0xFFFF_FFFFu32 << width))
        by (bit_vector);
    r
}

/// Replaces the `width`-bit field at bit `shift` of `word` with `value`: the
/// read-modify-write step of every configuration register update.
pub fn write_field(word: u32, shift: u32, width: u32, value: u32) -> (r: u32)
    requires
        field_fits(shift, width),
        value <= field_mask(width),
    ensures
        r == put_field(word, shift, width, value),
        get_field(r, shift, width) == value,
{
    proof {
        lemma_put_get(word, shift, width, value);
    }
    let mask = !(0xFFFF_FFFFu32 << width);
    (word & !(mask << shift)) | ((value & mask) << shift)
}

} // verus!
