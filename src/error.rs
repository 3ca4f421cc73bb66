//! What stops generation for a peripheral.
use vstd::prelude::*;
use crate::model::Access;

verus! {

/// A condition that aborts generation for the enclosing peripheral.
#[derive(Clone, Debug)]
pub enum GenError {
    /// Neither the register nor the defaults give a size.
    UnresolvableSize { register: String },
    /// A register size or a field width (of the item named) lies outside 1..=32 bits.
    UnsupportedWidth { name: String, width: u32 },
    /// The access modes of the register's fields name no single mode.
    AmbiguousAccess { register: String, modes: Vec<Option<Access>> },
    /// The register has no access mode and no fields to infer one from.
    MissingFields { register: String },
}

/// A `GenError` with its strings and lists as sequences.
pub ghost enum GenErrorV {
    UnresolvableSize { register: Seq<char> },
    UnsupportedWidth { name: Seq<char>, width: u32 },
    AmbiguousAccess { register: Seq<char>, modes: Seq<Option<Access>> },
    MissingFields { register: Seq<char> },
}

impl View for GenError {
    type V = GenErrorV;

    open spec fn view(&self) -> GenErrorV {
        match self {
            GenError::UnresolvableSize { register } => GenErrorV::UnresolvableSize {
                register: register@,
            },
            GenError::UnsupportedWidth { name, width } => GenErrorV::UnsupportedWidth {
                name: name@,
                width: *width,
            },
            GenError::AmbiguousAccess { register, modes } => GenErrorV::AmbiguousAccess {
                register: register@,
                modes: modes@,
            },
            GenError::MissingFields { register } => GenErrorV::MissingFields {
                register: register@,
            },
        }
    }
}

/// A result with its error seen through the error's view.
pub open spec fn err_view<T>(r: Result<T, GenError>) -> Result<T, GenErrorV> {
    match r {
        Ok(t) => Ok(t),
        Err(e) => Err(e@),
    }
}

} // verus!
