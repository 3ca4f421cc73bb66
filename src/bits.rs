//! Bit-level meaning of the accessors that are generated for register fields.
use vstd::prelude::*;

verus! {

/// The mask that covers the low `width` bits of a 32-bit word.
pub open spec fn field_mask(width: u32) -> u32 {
    if width >= 32 {
        0xffff_ffffu32
    } else {
        ((1u32 << width) - 1u32) as u32
    }
}

/// What a generated multi-bit getter returns for raw register bits `raw`.
pub open spec fn field_get(raw: u32, offset: u32, width: u32) -> u32 {
    (raw >> offset) & field_mask(width)
}

/// What a generated multi-bit setter leaves in the register.
pub open spec fn field_set(raw: u32, offset: u32, width: u32, value: u32) -> u32 {
    (raw & !(field_mask(width) << offset)) | ((value & field_mask(width)) << offset)
}

/// What a generated single-bit getter returns.
pub open spec fn bit_get(raw: u32, offset: u32) -> bool {
    (raw >> offset) & 1u32 == 1u32
}

/// What a generated single-bit setter leaves in the register.
pub open spec fn bit_set(raw: u32, offset: u32, value: bool) -> u32 {
    if value {
        raw | (1u32 << offset)
    } else {
        raw & !(1u32 << offset)
    }
}

/// A field of `width` bits starting at bit `offset` fits in a 32-bit word.
pub open spec fn field_fits(offset: u32, width: u32) -> bool {
    1 <= width && offset as int + width as int <= 32
}

/// The mask for the low `width` bits, as the generated code spells it.
pub fn mask_of(width: u32) -> (m: u32)
    requires
        1 <= width <= 32,
    ensures
        m == field_mask(width),
{
    if width >= 32 {
        0xffff_ffffu32
    } else {
        assert((1u32 << width) >= 1u32) by (bit_vector)
            requires
                width < 32u32,
        ;
        (1u32 << width) - 1u32
    }
}

/// Reads the field of `width` bits at `offset` out of `raw`.
pub fn read_field(raw: u32, offset: u32, width: u32) -> (r: u32)
    requires
        field_fits(offset, width),
    ensures
        r == field_get(raw, offset, width),
{
    let m = mask_of(width);
    (raw >> offset) & m
}

/// Stores `value` into the field of `width` bits at `offset` of `raw`,
/// clearing the field first and keeping every other bit.
pub fn write_field(raw: u32, offset: u32, width: u32, value: u32) -> (r: u32)
    requires
        field_fits(offset, width),
    ensures
        r == field_set(raw, offset, width, value),
{
    let m = mask_of(width);
    let cleared = raw & !(m << offset);
    cleared | ((value & m) << offset)
}

/// Reads bit `offset` of `raw`.
pub fn read_bit(raw: u32, offset: u32) -> (r: bool)
    requires
        offset < 32,
    ensures
        r == bit_get(raw, offset),
{
    (raw >> offset) & 1u32 == 1u32
}

/// Sets or clears bit `offset` of `raw`, keeping every other bit.
pub fn write_bit(raw: u32, offset: u32, value: bool) -> (r: u32)
    requires
        offset < 32,
    ensures
        r == bit_set(raw, offset, value),
{
    if value {
        raw | (1u32 << offset)
    } else {
        raw & !(1u32 << offset)
    }
}

/// Writing a value that fits in a field and reading the field back gives the
/// value, and the write leaves every bit outside the field as it was.
pub proof fn lemma_field_round_trip(raw: u32, offset: u32, width: u32, value: u32)
    requires
        field_fits(offset, width),
        value <= field_mask(width),
    ensures
        field_get(field_set(raw, offset, width, value), offset, width) == value,
        field_set(raw, offset, width, value) & !(field_mask(width) << offset) == raw & !(
        field_mask(width) << offset),
{
    let m = field_mask(width);
    let r = field_set(raw, offset, width, value);
    if width >= 32 {
        assert(offset == 0);
        assert(m == 0xffff_ffffu32);
        assert(((((raw & !(m << offset)) | ((value & m) << offset)) >> offset) & m) == value
            && ((raw & !(m << offset)) | ((value & m) << offset)) & !(m << offset) == raw & !(m
            << offset)) by (bit_vector)
            requires
                offset == 0u32,
                m == 0xffff_ffffu32,
        ;
    } else {
        assert((1u32 << width) >= 1u32) by (bit_vector)
            requires
                width < 32u32,
        ;
        assert(((((raw & !(m << offset)) | ((value & m) << offset)) >> offset) & m) == value
            && ((raw & !(m << offset)) | ((value & m) << offset)) & !(m << offset) == raw & !(m
            << offset)) by (bit_vector)
            requires
                width < 32u32,
                1u32 <= width,
                offset + width <= 32u32,
                m + 1u32 == (1u32 << width),
                value <= m,
        ;
    }
}

/// Writing a bit and reading it back gives what was written, and the write
/// leaves every other bit as it was.
pub proof fn lemma_bit_round_trip(raw: u32, offset: u32, value: bool)
    requires
        offset < 32,
    ensures
        bit_get(bit_set(raw, offset, value), offset) == value,
        bit_set(raw, offset, value) & !(1u32 << offset) == raw & !(1u32 << offset),
{
    assert((((raw | (1u32 << offset)) >> offset) & 1u32 == 1u32) && (raw | (1u32 << offset)) & !(
    1u32 << offset) == raw & !(1u32 << offset)) by (bit_vector)
        requires
            offset < 32u32,
    ;
    assert((((raw & !(1u32 << offset)) >> offset) & 1u32 != 1u32) && (raw & !(1u32 << offset))
        & !(1u32 << offset) == raw & !(1u32 << offset)) by (bit_vector)
        requires
            offset < 32u32,
    ;
}

} // verus!
