//! Bit and bit-field arithmetic on 32-bit register words.
use vstd::prelude::*;

verus! {

/// Whether bit `i` of `v` is set.
pub open spec fn bit(v: u32, i: u32) -> bool {
    (v >> i) & 1u32 == 1u32
}

/// `v` with bit `i` forced to `b`.
pub open spec fn set_bit(v: u32, i: u32, b: bool) -> u32 {
    if b {
        v | (1u32 << i)
    } else {
        v & !(1u32 << i)
    }
}

/// The mask of the `width` lowest bits.
pub open spec fn low_mask(width: u32) -> u32 {
    if width >= 32 {
        0xffff_ffffu32
    } else {
        ((1u32 << width) - 1u32) as u32
    }
}

/// The `width`-bit field of `v` that starts at bit `lo`.
pub open spec fn field(v: u32, lo: u32, width: u32) -> u32 {
    (v >> lo) & low_mask(width)
}

/// `v` with its `width`-bit field at bit `lo` replaced by the low `width` bits of `x`.
pub open spec fn set_field(v: u32, lo: u32, width: u32, x: u32) -> u32 {
    (v & !(low_mask(width) << lo)) | ((x & low_mask(width)) << lo)
}

/// Setting a bit sets exactly that bit and leaves every other bit as it was.
pub proof fn lemma_set_bit(v: u32, i: u32, j: u32, b: bool)
    requires
        i < 32,
        j < 32,
    ensures
        bit(set_bit(v, i, b), i) == b,
        j != i ==> bit(set_bit(v, i, b), j) == bit(v, j),
{
    assert(bit(set_bit(v, i, b), i) == b) by (bit_vector)
        requires i < 32;
    assert(j != i ==> bit(set_bit(v, i, b), j) == bit(v, j)) by (bit_vector)
        requires i < 32, j < 32;
}

/// Reads bit `i` of `v`.
pub fn get_bit(v: u32, i: u32) -> (r: bool)
    requires
        i < 32,
    ensures
        r == bit(v, i),
{
    (v >> i) & 1u32 == 1u32
}

/// Returns `v` with bit `i` forced to `b`.
pub fn with_bit(v: u32, i: u32, b: bool) -> (r: u32)
    requires
        i < 32,
    ensures
        r == set_bit(v, i, b),
{
    if b {
        v | (1u32 << i)
    } else {
        v & !(1u32 << i)
    }
}

/// The mask of the `width` lowest bits.
pub fn mask_of(width: u32) -> (r: u32)
    ensures
        r == low_mask(width),
{
    if width >= 32 {
        0xffff_ffffu32
    } else {
        assert(1u32 << width >= 1u32) by (bit_vector)
            requires width < 32;
        (1u32 << width) - 1
    }
}

/// Reads the `width`-bit field of `v` starting at bit `lo`.
pub fn get_field(v: u32, lo: u32, width: u32) -> (r: u32)
    requires
        0 < width,
        lo + width <= 32,
    ensures
        r == field(v, lo, width),
{
    let m = mask_of(width);
    (v >> lo) & m
}

/// Returns `v` with the `width`-bit field at bit `lo` replaced by the low `width` bits of `x`.
pub fn with_field(v: u32, lo: u32, width: u32, x: u32) -> (r: u32)
    requires
        0 < width,
        lo + width <= 32,
    ensures
        r == set_field(v, lo, width, x),
{
    let m = mask_of(width);
    (v & !(m << lo)) | ((x & m) << lo)
}

/// The widths of the register fields of this crate, as masks.
pub proof fn lemma_low_mask_values()
    ensures
        low_mask(1) == 0x1,
        low_mask(4) == 0xF,
        low_mask(5) == 0x1F,
        low_mask(8) == 0xFF,
        low_mask(12) == 0xFFF,
        low_mask(16) == 0xFFFF,
        low_mask(26) == 0x3FF_FFFF,
{
    assert(low_mask(1) == 0x1 && low_mask(4) == 0xF && low_mask(5) == 0x1F && low_mask(8) == 0xFF
        && low_mask(12) == 0xFFF && low_mask(16) == 0xFFFF && low_mask(26) == 0x3FF_FFFF)
        by (bit_vector);
}

/// A field never exceeds the mask of its width.
pub proof fn lemma_field_bound(v: u32, lo: u32, width: u32)
    requires
        0 < width,
        lo + width <= 32,
    ensures
        field(v, lo, width) <= low_mask(width),
        width == 1 ==> field(v, lo, width) <= 0x1,
        width == 4 ==> field(v, lo, width) <= 0xF,
        width == 5 ==> field(v, lo, width) <= 0x1F,
        width == 8 ==> field(v, lo, width) <= 0xFF,
        width == 12 ==> field(v, lo, width) <= 0xFFF,
        width == 16 ==> field(v, lo, width) <= 0xFFFF,
        width == 26 ==> field(v, lo, width) <= 0x3FF_FFFF,
{
    assert(field(v, lo, width) <= low_mask(width)) by (bit_vector)
        requires 0 < width, lo + width <= 32;
    lemma_low_mask_values();
}

/// Writing a field and reading it back yields the value written, cut to the field's width,
/// and every bit outside the field keeps its value.
pub proof fn lemma_set_field(v: u32, lo: u32, width: u32, x: u32, j: u32)
    requires
        0 < width,
        lo + width <= 32,
        j < 32,
    ensures
        field(set_field(v, lo, width, x), lo, width) == x & low_mask(width),
        (j < lo || j >= lo + width) ==> bit(set_field(v, lo, width, x), j) == bit(v, j),
{
    assert(field(set_field(v, lo, width, x), lo, width) == x & low_mask(width)) by (bit_vector)
        requires 0 < width, lo + width <= 32;
    assert((j < lo || j >= lo + width) ==> bit(set_field(v, lo, width, x), j) == bit(v, j))
        by (bit_vector)
        requires 0 < width, lo + width <= 32, j < 32;
}

} // verus!
