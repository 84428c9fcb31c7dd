//! Packing of fixed-width fields into 32-bit registers.
use vstd::prelude::*;

verus! {

/// The mask of a field `width` bits wide.
pub open spec fn field_mask(width: u32) -> u32 {
    ((1u32 << width) - 1) as u32
}

/// The value of the field at bit `shift`, `width` bits wide.
pub open spec fn get_field(bits: u32, shift: u32, width: u32) -> u32 {
    (bits >> shift) & field_mask(width)
}

/// `bits` with the field at bit `shift`, `width` bits wide, set to `v`
/// (truncated to the field's width); all other bits unchanged.
pub open spec fn set_field(bits: u32, shift: u32, width: u32, v: u32) -> u32 {
    (bits & !(field_mask(width) << shift)) | ((v & field_mask(width)) << shift)
}

/// A field position is valid when the field is not empty and lies within
/// the 32-bit word.
pub open spec fn valid_field(shift: u32, width: u32) -> bool {
    0 < width && width < 32 && shift + width <= 32
}

/// Sets a field of a 32-bit word.
pub fn with_field(bits: u32, shift: u32, width: u32, v: u32) -> (r: u32)
    requires
        valid_field(shift, width),
    ensures
        r == set_field(bits, shift, width, v),
{
    assert(1u32 << width >= 1) by (bit_vector)
        requires width < 32;
    let mask: u32 = (1u32 << width) - 1;
    (bits & !(mask << shift)) | ((v & mask) << shift)
}

/// Reads a field of a 32-bit word.
pub fn field(bits: u32, shift: u32, width: u32) -> (r: u32)
    requires
        valid_field(shift, width),
    ensures
        r == get_field(bits, shift, width),
{
    assert(1u32 << width >= 1) by (bit_vector)
        requires width < 32;
    let mask: u32 = (1u32 << width) - 1;
    (bits >> shift) & mask
}

/// Reading a field back gives the value written to it, truncated to the
/// field's width.
pub proof fn lemma_get_set_same(bits: u32, shift: u32, width: u32, v: u32)
    requires
        valid_field(shift, width),
    ensures
        get_field(set_field(bits, shift, width, v), shift, width) == v & field_mask(width),
        v < (1u32 << width) ==> get_field(set_field(bits, shift, width, v), shift, width) == v,
{
    let m = field_mask(width);
    assert((((bits & !(m << shift)) | ((v & m) << shift)) >> shift) & m == v & m) by (bit_vector)
        requires
            m == ((1u32 << width) - 1) as u32,
            0 < width < 32,
            shift + width <= 32,
    ;
    assert(v < (1u32 << width) ==> v & m == v) by (bit_vector)
        requires
            m == ((1u32 << width) - 1) as u32,
            0 < width < 32,
    ;
}

/// Writing a field leaves every field that does not overlap it unchanged.
pub proof fn lemma_get_set_other(bits: u32, shift: u32, width: u32, v: u32, s2: u32, w2: u32)
    requires
        valid_field(shift, width),
        valid_field(s2, w2),
        s2 + w2 <= shift || shift + width <= s2,
    ensures
        get_field(set_field(bits, shift, width, v), s2, w2) == get_field(bits, s2, w2),
{
    let m = field_mask(width);
    let m2 = field_mask(w2);
    assert((((bits & !(m << shift)) | ((v & m) << shift)) >> s2) & m2 == (bits >> s2) & m2)
        by (bit_vector)
        requires
            m == ((1u32 << width) - 1) as u32,
            m2 == ((1u32 << w2) - 1) as u32,
            0 < width < 32,
            shift + width <= 32,
            0 < w2 < 32,
            s2 + w2 <= 32,
            s2 + w2 <= shift || shift + width <= s2,
    ;
}

} // verus!
