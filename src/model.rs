//! The hardware description that code is generated from.
use vstd::prelude::*;

verus! {

/// How software may touch a register or a field.
#[derive(Clone, Copy, Debug, PartialEq, Eq, Structural)]
pub enum Access {
    ReadOnly,
    WriteOnly,
    ReadWrite,
}

/// A run of `width` bits starting at bit `offset` of a register.
#[derive(Clone, Copy, Debug, PartialEq, Eq, Structural)]
pub struct BitRange {
    pub offset: u32,
    pub width: u32,
}

/// A named bit range of a register.
#[derive(Clone, Debug)]
pub struct Field {
    pub name: String,
    pub description: Option<String>,
    pub bit_range: BitRange,
    pub access: Option<Access>,
}

/// A register of a peripheral; `address_offset` is in bytes from the
/// peripheral's base, `size` in bits.
#[derive(Clone, Debug)]
pub struct Register {
    pub name: String,
    pub description: String,
    pub address_offset: u32,
    pub size: Option<u32>,
    pub access: Option<Access>,
    pub reset_value: Option<u32>,
    pub fields: Option<Vec<Field>>,
}

/// Values that stand in for what a register leaves out. Of these, generation
/// reads `size` and `reset_value`; a register without an access mode has it
/// inferred from its fields.
#[derive(Clone, Copy, Debug)]
pub struct Defaults {
    pub size: Option<u32>,
    pub reset_value: Option<u32>,
    pub access: Option<Access>,
}

/// A peripheral: its registers are expected in non-decreasing order of
/// `address_offset`; one that starts inside an earlier register is skipped.
#[derive(Clone, Debug)]
pub struct Peripheral {
    pub name: String,
    pub base_address: u32,
    pub description: Option<String>,
    pub derived_from: Option<String>,
    pub registers: Vec<Register>,
}

/// The size in bits of register `r`, from the register or else the defaults.
pub open spec fn size_of(r: Register, d: Defaults) -> Option<u32> {
    match r.size {
        Some(s) => Some(s),
        None => d.size,
    }
}

/// The reset value of register `r`, from the register or else the defaults.
pub open spec fn reset_of(r: Register, d: Defaults) -> Option<u32> {
    match r.reset_value {
        Some(v) => Some(v),
        None => d.reset_value,
    }
}

/// Number of bytes that a register of `size` bits occupies.
pub open spec fn bytes_of(size: u32) -> int {
    (size as int + 7) / 8
}

/// The size in bits of register `r`, from the register or else the defaults.
pub fn register_size(r: &Register, d: &Defaults) -> (s: Option<u32>)
    ensures
        s == size_of(*r, *d),
{
    match r.size {
        Some(s) => Some(s),
        None => d.size,
    }
}

/// The reset value of register `r`, from the register or else the defaults.
pub fn register_reset(r: &Register, d: &Defaults) -> (v: Option<u32>)
    ensures
        v == reset_of(*r, *d),
{
    match r.reset_value {
        Some(v) => Some(v),
        None => d.reset_value,
    }
}

} // verus!
