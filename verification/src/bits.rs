//! Bit fields of 32-bit hardware registers.
//!
//! A register word is modelled as its raw `u32` value. A field is a run of
//! `width` bits whose lowest bit is bit `shift`. Register accessors are
//! specified through [`field`] (what a read returns) and [`same_outside`]
//! (which bits a write leaves alone).
use vstd::prelude::*;

verus! {

/// The mask with the low `width` bits set (for `width < 32`).
pub open spec fn low_mask(width: u32) -> u32 {
    !(0xffff_ffffu32 << width)
}

/// The mask covering the field of `width` bits that starts at bit `shift`.
pub open spec fn field_mask(shift: u32, width: u32) -> u32 {
    low_mask(width) << shift
}

/// Value held by the `width`-bit field of `x` that starts at bit `shift`.
pub open spec fn field(x: u32, shift: u32, width: u32) -> u32 {
    (x >> shift) & low_mask(width)
}

/// `x` and `y` agree on every bit outside the field.
pub open spec fn same_outside(x: u32, y: u32, shift: u32, width: u32) -> bool {
    x & !field_mask(shift, width) == y & !field_mask(shift, width)
}

/// `x` with its `width`-bit field at bit `shift` replaced by the low bits
/// of `v`.
pub open spec fn with_field(x: u32, shift: u32, width: u32, v: u32) -> u32 {
    (x & !field_mask(shift, width)) | ((v << shift) & field_mask(shift, width))
}

/// `x` with its `width`-bit field at bit `shift` cleared and `v` shifted
/// to the field's position ORed in; bits of `v` that do not fit spill over.
pub open spec fn or_field(x: u32, shift: u32, width: u32, v: u32) -> u32 {
    (x & !field_mask(shift, width)) | (v << shift)
}

/// The field lies inside a 32-bit word and is not empty.
pub open spec fn valid_field(shift: u32, width: u32) -> bool {
    0 < width && width < 32 && shift + width <= 32
}

/// Values of the masks of the field widths used by the registers.
pub proof fn lemma_low_masks()
    by (bit_vector)
    ensures
        low_mask(1) == 0x1,
        low_mask(2) == 0x3,
        low_mask(3) == 0x7,
        low_mask(4) == 0xf,
        low_mask(5) == 0x1f,
        low_mask(6) == 0x3f,
        low_mask(8) == 0xff,
        low_mask(10) == 0x3ff,
        low_mask(12) == 0xfff,
        low_mask(16) == 0xffff,
        low_mask(26) == 0x3ff_ffff,
{
}

proof fn lemma_set_field(x: u32, v: u32, shift: u32, width: u32)
    by (bit_vector)
    requires
        0 < width,
        width < 32,
        shift + width <= 32,
    ensures
        field((x & !field_mask(shift, width)) | ((v << shift) & field_mask(shift, width)), shift, width)
            == v & low_mask(width),
        same_outside(x, (x & !field_mask(shift, width)) | ((v << shift) & field_mask(shift, width)), shift, width),
        v <= low_mask(width) ==> v & low_mask(width) == v,
{
}

/// A field never holds more than its mask.
pub proof fn lemma_field_bound(x: u32, shift: u32, width: u32)
    by (bit_vector)
    ensures
        field(x, shift, width) <= low_mask(width),
{
}

proof fn lemma_bit(x: u32, bit: u32)
    by (bit_vector)
    requires
        bit < 32,
    ensures
        low_mask(1) == 1,
        field_mask(bit, 1) == 1u32 << bit,
        x | (1u32 << bit) == with_field(x, bit, 1, 1),
        x & !(1u32 << bit) == with_field(x, bit, 1, 0),
        field(x | (1u32 << bit), bit, 1) == 1,
        same_outside(x, x | (1u32 << bit), bit, 1),
        field(x & !(1u32 << bit), bit, 1) == 0,
        same_outside(x, x & !(1u32 << bit), bit, 1),
        field(x ^ (1u32 << bit), bit, 1) == 1 - field(x, bit, 1),
        same_outside(x, x ^ (1u32 << bit), bit, 1),
        (x & (1u32 << bit) != 0) == (field(x, bit, 1) == 1),
        field(x, bit, 1) <= 1,
{
}

/// Reads the `width`-bit field of `x` that starts at bit `shift`.
pub fn get_field(x: u32, shift: u32, width: u32) -> (r: u32)
    requires
        valid_field(shift, width),
    ensures
        r == field(x, shift, width),
        r <= low_mask(width),
{
    proof {
        lemma_field_bound(x, shift, width);
    }
    let mask: u32 = !(0xffff_ffffu32 << width);
    (x >> shift) & mask
}

/// Writes `v` into the `width`-bit field of `x` that starts at bit `shift`,
/// dropping the bits of `v` that do not fit, and keeps every other bit.
pub fn set_field(x: u32, shift: u32, width: u32, v: u32) -> (r: u32)
    requires
        valid_field(shift, width),
    ensures
        r == with_field(x, shift, width, v),
        field(r, shift, width) == v & low_mask(width),
        v <= low_mask(width) ==> field(r, shift, width) == v,
        same_outside(x, r, shift, width),
{
    proof {
        lemma_set_field(x, v, shift, width);
    }
    let mask: u32 = (!(0xffff_ffffu32 << width)) << shift;
    (x & !mask) | ((v << shift) & mask)
}

proof fn lemma_or_into_field(x: u32, v: u32, shift: u32, width: u32)
    by (bit_vector)
    requires
        0 < width,
        width < 32,
        shift + width <= 32,
        v <= low_mask(width),
    ensures
        field((x & !field_mask(shift, width)) | (v << shift), shift, width) == v,
        same_outside(x, (x & !field_mask(shift, width)) | (v << shift), shift, width),
{
}

/// Clears the `width`-bit field of `x` that starts at bit `shift`, then ORs
/// in `v` shifted to the field's position. Bits of `v` that do not fit in
/// the field are not dropped: they spill into the bits above it.
pub fn or_into_field(x: u32, shift: u32, width: u32, v: u32) -> (r: u32)
    requires
        valid_field(shift, width),
    ensures
        r == or_field(x, shift, width, v),
        v <= low_mask(width) ==> field(r, shift, width) == v && same_outside(x, r, shift, width),
{
    proof {
        if v <= low_mask(width) {
            lemma_or_into_field(x, v, shift, width);
        }
    }
    let mask: u32 = (!(0xffff_ffffu32 << width)) << shift;
    (x & !mask) | (v << shift)
}

/// Sets bit `bit` of `x` and keeps every other bit.
pub fn set_bit(x: u32, bit: u32) -> (r: u32)
    requires
        bit < 32,
    ensures
        r == with_field(x, bit, 1, 1),
        field(r, bit, 1) == 1,
        same_outside(x, r, bit, 1),
{
    proof {
        lemma_bit(x, bit);
    }
    x | (1u32 << bit)
}

/// Clears bit `bit` of `x` and keeps every other bit.
pub fn clear_bit(x: u32, bit: u32) -> (r: u32)
    requires
        bit < 32,
    ensures
        r == with_field(x, bit, 1, 0),
        field(r, bit, 1) == 0,
        same_outside(x, r, bit, 1),
{
    proof {
        lemma_bit(x, bit);
    }
    x & !(1u32 << bit)
}

/// Whether bit `bit` of `x` is set.
pub fn test_bit(x: u32, bit: u32) -> (r: bool)
    requires
        bit < 32,
    ensures
        r == (field(x, bit, 1) == 1),
        field(x, bit, 1) <= 1,
{
    proof {
        lemma_bit(x, bit);
    }
    x & (1u32 << bit) != 0
}

/// Reading a field after writing a disjoint field gives the value it had
/// before the write: fields that do not overlap are independent.
pub proof fn lemma_disjoint_fields(x: u32, y: u32, s1: u32, w1: u32, s2: u32, w2: u32)
    requires
        valid_field(s1, w1),
        valid_field(s2, w2),
        s1 + w1 <= s2 || s2 + w2 <= s1,
        same_outside(x, y, s1, w1),
    ensures
        field(x, s2, w2) == field(y, s2, w2),
{
    assert(field(x, s2, w2) == field(y, s2, w2)) by (bit_vector)
        requires
            0 < w1 && w1 < 32 && s1 + w1 <= 32,
            0 < w2 && w2 < 32 && s2 + w2 <= 32,
            s1 + w1 <= s2 || s2 + w2 <= s1,
            x & !field_mask(s1, w1) == y & !field_mask(s1, w1),
    ;
}

/// Two words that agree on a field and on every bit outside it are equal:
/// a write is fully described by the value of the field it writes and by
/// the bits it keeps.
pub proof fn lemma_field_determines(x: u32, y: u32, shift: u32, width: u32)
    requires
        valid_field(shift, width),
        field(x, shift, width) == field(y, shift, width),
        same_outside(x, y, shift, width),
    ensures
        x == y,
{
    assert(x == y) by (bit_vector)
        requires
            0 < width && width < 32 && shift + width <= 32,
            (x >> shift) & low_mask(width) == (y >> shift) & low_mask(width),
            x & !field_mask(shift, width) == y & !field_mask(shift, width),
    ;
}

/// Reading a field after writing it gives the written value, cut to the
/// field's width; writing the value a field already holds changes nothing;
/// of two writes to the same field the last one wins.
pub proof fn lemma_write_read(x: u32, shift: u32, width: u32, a: u32, b: u32)
    requires
        valid_field(shift, width),
    ensures
        field(with_field(x, shift, width, a), shift, width) == a & low_mask(width),
        with_field(x, shift, width, field(x, shift, width)) == x,
        with_field(with_field(x, shift, width, a), shift, width, b) == with_field(x, shift, width, b),
{
    assert(field(with_field(x, shift, width, a), shift, width) == a & low_mask(width)
        && with_field(x, shift, width, field(x, shift, width)) == x
        && with_field(with_field(x, shift, width, a), shift, width, b) == with_field(x, shift, width, b))
        by (bit_vector)
        requires
            0 < width && width < 32 && shift + width <= 32,
    ;
}

} // verus!
