//! The integer type that holds a given number of bits.
use vstd::prelude::*;

verus! {

/// An unsigned integer type of the generated code.
#[derive(Clone, Copy, Debug, PartialEq, Eq, Structural)]
pub enum IntTy {
    U8,
    U16,
    U32,
}

/// The smallest of the 8-, 16- and 32-bit types that holds `width` bits;
/// `None` for a width of 0 or above 32.
pub open spec fn int_ty_of(width: int) -> Option<IntTy> {
    if 1 <= width <= 8 {
        Some(IntTy::U8)
    } else if 9 <= width <= 16 {
        Some(IntTy::U16)
    } else if 17 <= width <= 32 {
        Some(IntTy::U32)
    } else {
        None
    }
}

/// Resolves `width` to its integer type, or `None` where no type fits.
pub fn to_ty(width: u32) -> (r: Option<IntTy>)
    ensures
        r == int_ty_of(width as int),
{
    if 1 <= width && width <= 8 {
        Some(IntTy::U8)
    } else if 9 <= width && width <= 16 {
        Some(IntTy::U16)
    } else if 17 <= width && width <= 32 {
        Some(IntTy::U32)
    } else {
        None
    }
}

} // verus!

verus! {

/// The number of bits of an integer type.
pub open spec fn ty_bits(t: IntTy) -> int {
    match t {
        IntTy::U8 => 8,
        IntTy::U16 => 16,
        IntTy::U32 => 32,
    }
}

/// The type chosen for a width of 1 to 32 holds that many bits, and no
/// smaller of the three types does.
pub proof fn lemma_smallest_type(width: int)
    requires
        1 <= width <= 32,
    ensures
        int_ty_of(width) is Some,
        width <= ty_bits(int_ty_of(width)->Some_0),
        forall|t: IntTy| width <= #[trigger] ty_bits(t) ==> ty_bits(int_ty_of(width)->Some_0) <= ty_bits(t),
{
    assert forall|t: IntTy| width <= #[trigger] ty_bits(t) implies ty_bits(int_ty_of(width)->Some_0)
        <= ty_bits(t) by {
        match t {
            IntTy::U8 => {},
            IntTy::U16 => {},
            IntTy::U32 => {},
        }
    }
}

} // verus!
