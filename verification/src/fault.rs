//! The ways in which generation and conversion fail.

use vstd::prelude::*;

verus! {

/// Why no capability was generated for a declaration.
#[derive(Clone, Copy, Debug, PartialEq, Eq, Structural)]
pub enum GenerationError {
    /// The declaration is a record or a union, not an enumeration.
    DeclarationShape,
    /// The declaration has no usable width marker: none at all, a
    /// malformed one, or the marker that only fixes the layout.
    ReprAttribute,
}

/// The diagnostic for a declaration of the wrong shape.
pub const NOT_AN_ENUMERATION: &'static str = "Only Enum can derive `NumberEnum`";

/// The diagnostic for a declaration without a usable width marker.
pub const NO_USABLE_REPR: &'static str = "Expect an exact and right `repr` arugment";

impl GenerationError {
    /// The diagnostic's text.
    pub open spec fn text(self) -> Seq<char> {
        match self {
            GenerationError::DeclarationShape => NOT_AN_ENUMERATION@,
            GenerationError::ReprAttribute => NO_USABLE_REPR@,
        }
    }

    /// The diagnostic that names the failing condition.
    pub fn message(&self) -> (r: &'static str)
        ensures
            r@ == self.text(),
    {
        match self {
            GenerationError::DeclarationShape => NOT_AN_ENUMERATION,
            GenerationError::ReprAttribute => NO_USABLE_REPR,
        }
    }
}

/// A number that stands for no variant was converted back.
#[derive(Clone, Copy, Debug, PartialEq, Eq, Structural)]
pub struct InvalidOrdinalFault {
    /// The number that was handed in.
    pub value: u16,
}

/// The diagnostic with which a conversion gives up on such a number.
pub const INVALID_ORDINAL: &'static str = "failed to parse number into enum";

impl InvalidOrdinalFault {
    /// The diagnostic with which the conversion gives up.
    pub fn message(&self) -> (r: &'static str)
        ensures
            r@ == INVALID_ORDINAL@,
    {
        INVALID_ORDINAL
    }
}

} // verus!
