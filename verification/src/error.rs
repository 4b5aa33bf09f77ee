//! Why a node could not be built.

use vstd::prelude::*;

verus! {

/// The reason for which a constructor refused to build a node.
#[derive(Debug, Clone, Copy, PartialEq, Eq, Structural)]
pub enum ConstructionError {
    /// A node that needs at least one component was given none.
    NoComponents,
    /// The number of separators does not fit the number of items that they
    /// separate.
    SeparatorMismatch,
    /// The magnitude of a negative literal is larger than a signed 64-bit
    /// integer can hold.
    OutOfRange,
    /// The elements of an array are not all of one kind.
    MixedKinds,
    /// An option in a bracketed list is not of the compact form.
    NotCompact,
}

impl ConstructionError {
    /// The reason in words.
    pub fn message(&self) -> (res: &'static str)
        ensures
            res@ == match *self {
                ConstructionError::NoComponents => "must have at least one component"@,
                ConstructionError::SeparatorMismatch =>
                    "number of separators does not fit number of items"@,
                ConstructionError::OutOfRange => "magnitude does not fit a signed 64-bit integer"@,
                ConstructionError::MixedKinds => "elements must all be of one kind"@,
                ConstructionError::NotCompact => "options in brackets must be compact"@,
            },
    {
        match self {
            ConstructionError::NoComponents => "must have at least one component",
            ConstructionError::SeparatorMismatch =>
                "number of separators does not fit number of items",
            ConstructionError::OutOfRange => "magnitude does not fit a signed 64-bit integer",
            ConstructionError::MixedKinds => "elements must all be of one kind",
            ConstructionError::NotCompact => "options in brackets must be compact",
        }
    }
}

} // verus!
