//! Bit-field access on 32-bit register words.
//!
//! Every register accessor in this crate is specified through [`field`]:
//! a field is `mask` wide (a run of low ones) and starts at bit `lo`.

use vstd::prelude::*;

verus! {

/// The value of the field of `v` that starts at bit `lo` and is `mask` wide.
pub open spec fn field(v: u32, lo: u32, mask: u32) -> u32 {
    (v >> lo) & mask
}

/// `v` with the field at `lo` of width `mask` replaced by `x & mask`.
pub open spec fn with_field(v: u32, lo: u32, mask: u32, x: u32) -> u32 {
    (v & !(mask << lo)) | ((x & mask) << lo)
}

/// Whether bit `b` of `v` is set.
pub open spec fn bit(v: u32, b: u32) -> bool {
    field(v, b, 1) == 1
}

/// `a` and `b` agree on every bit outside the field at `lo` of width `mask`.
pub open spec fn same_outside(a: u32, b: u32, lo: u32, mask: u32) -> bool {
    a & !(mask << lo) == b & !(mask << lo)
}

/// A field of width `mask` placed at `lo` fits in 32 bits.
pub open spec fn field_fits(lo: u32, mask: u32) -> bool {
    lo < 32 && mask <= (0xFFFF_FFFFu32 >> lo)
}

/// Writing a field and reading it back gives the written value (masked to
/// the field's width), and leaves every other bit as it was.
pub proof fn lemma_field_write_read(v: u32, lo: u32, mask: u32, x: u32)
    requires
        field_fits(lo, mask),
    ensures
        field((v & !(mask << lo)) | ((x & mask) << lo), lo, mask) == x & mask,
        same_outside((v & !(mask << lo)) | ((x & mask) << lo), v, lo, mask),
{
    assert(((((v & !(mask << lo)) | ((x & mask) << lo)) >> lo) & mask == x & mask) && (((v & !(
    mask << lo)) | ((x & mask) << lo)) & !(mask << lo) == v & !(mask << lo))) by (bit_vector)
        requires
            lo < 32,
            mask <= (0xFFFF_FFFFu32 >> lo),
    ;
}

/// A value that already fits in a field of width `mask` is unchanged by
/// masking, and masking never yields more than the mask.
pub proof fn lemma_and_mask(x: u32, mask: u32)
    ensures
        x & mask <= mask,
        (mask == 1 || mask == 3 || mask == 7 || mask == 0xF || mask == 0x1F || mask == 0x7F
            || mask == 0xFF || mask == 0xFFF) && x <= mask ==> x & mask == x,
{
    assert(x & mask <= mask && ((mask == 1 || mask == 3 || mask == 7 || mask == 0xF || mask == 0x1F
        || mask == 0x7F || mask == 0xFF || mask == 0xFFF) && x <= mask ==> x & mask == x))
        by (bit_vector);
}

/// The multi-bit register fields of this crate all fit in 32 bits.
pub proof fn lemma_register_fields_fit()
    ensures
        field_fits(5, 3),
        field_fits(8, 0x7F),
        field_fits(16, 3),
        field_fits(24, 7),
        field_fits(24, 0x1F),
        field_fits(29, 7),
{
    assert(0x7F <= (0xFFFF_FFFFu32 >> 8u32) && 3 <= (0xFFFF_FFFFu32 >> 16u32) && 7 <= (
    0xFFFF_FFFFu32 >> 24u32) && 0x1F <= (0xFFFF_FFFFu32 >> 24u32) && 7 <= (0xFFFF_FFFFu32
        >> 29u32) && 3 <= (0xFFFF_FFFFu32 >> 5u32)) by (bit_vector);
}

/// Reads a field of at most 8 bits.
pub fn get_field_u8(v: u32, lo: u32, mask: u32) -> (r: u8)
    requires
        lo < 32,
        mask <= 0xFF,
    ensures
        r as u32 == field(v, lo, mask),
        r as u32 <= mask,
{
    let x = (v >> lo) & mask;
    proof {
        lemma_and_mask(v >> lo, mask);
    }
    x as u8
}

/// Reads the field of `v` at `lo` of width `mask`.
pub fn get_field(v: u32, lo: u32, mask: u32) -> (r: u32)
    requires
        lo < 32,
    ensures
        r == field(v, lo, mask),
{
    (v >> lo) & mask
}

/// Replaces the field of `v` at `lo` of width `mask` with `x & mask`.
pub fn set_field(v: u32, lo: u32, mask: u32, x: u32) -> (r: u32)
    requires
        field_fits(lo, mask),
    ensures
        r == with_field(v, lo, mask, x),
        field(r, lo, mask) == x & mask,
        same_outside(r, v, lo, mask),
{
    proof {
        lemma_field_write_read(v, lo, mask, x);
    }
    (v & !(mask << lo)) | ((x & mask) << lo)
}

/// Reads bit `b` of `v`.
pub fn get_bit(v: u32, b: u32) -> (r: bool)
    requires
        b < 32,
    ensures
        r == bit(v, b),
{
    (v >> b) & 1 == 1
}

/// Sets (`on`) or clears bit `b` of `v`, leaving the other bits as they are.
pub fn set_bit(v: u32, b: u32, on: bool) -> (r: u32)
    requires
        b < 32,
    ensures
        r == with_field(v, b, 1, if on {
            1
        } else {
            0
        }),
        bit(r, b) == on,
        same_outside(r, v, b, 1),
{
    let x: u32 = if on { 1 } else { 0 };
    assert(field_fits(b, 1)) by (bit_vector)
        requires
            b < 32,
    ;
    proof {
        lemma_and_mask(x, 1);
    }
    set_field(v, b, 1, x)
}

} // verus!
