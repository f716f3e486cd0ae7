//! Integer conversions and ordinal arithmetic for plain enumerations.
//!
//! Given the declaration of an enumeration whose variants carry no explicit
//! value, the crate describes the capability that such a type can be given:
//! a pairing of every variant with its position, held in an integer of the
//! declared width, and addition and subtraction routed through that integer.
//!
//! [`derive_number_enum`] is the entry point. It checks the declaration
//! ([`validate`]), which reads the width marker off the declaration's
//! attributes ([`get_repr_size`]); then it numbers the variants
//! ([`impl_convert_traits`]) and describes the operators
//! ([`impl_calc_traits`]). The [`Capability`] that comes out says what to
//! emit, and its methods compute what the emitted code computes.
//!
//! Only two classes of width are told apart: the marker `u8` stands for
//! eight bits, and every other marker for sixteen, whatever its name.

use vstd::prelude::*;

pub mod calc;
pub mod capability;
pub mod declaration;
pub mod fault;
pub mod inspect;
pub mod table;
mod text;
pub mod width;

pub use calc::{impl_calc_traits, CalcTraits, CalcTraitsView, Operation};
pub use capability::{Capability, CapabilityView, Variant};
pub use declaration::{
    Attribute, AttributeView, DeclKind, Declaration, DeclarationView, Token, TokenView,
};
pub use fault::{GenerationError, InvalidOrdinalFault};
pub use inspect::get_repr_size;
pub use table::{impl_convert_traits, ConvertTraits, ConvertTraitsView, FromArm, ToArm};
pub use width::WidthClass;

verus! {

/// The width marker of a declaration that can be given the capability, or
/// the reason why it cannot: a record or a union has the wrong shape, and
/// an enumeration needs a usable width marker.
pub open spec fn usable_width(input: DeclarationView) -> Result<Seq<char>, GenerationError> {
    if input.kind != DeclKind::Enumeration {
        Err(GenerationError::DeclarationShape)
    } else {
        match inspect::repr_size(input.attributes) {
            Some(marker) => Ok(marker),
            None => Err(GenerationError::ReprAttribute),
        }
    }
}

/// What generation comes to for a declaration: the capability of its
/// variants in the width that it declares, or the reason why there is none.
pub open spec fn generated(input: DeclarationView) -> Result<CapabilityView, GenerationError> {
    match usable_width(input) {
        Ok(marker) => Ok(capability::capability(input.name, input.variants, marker)),
        Err(error) => Err(error),
    }
}

/// Checks that the declaration is an enumeration with a usable width
/// marker, and hands the marker out.
pub fn validate(input: &Declaration) -> (r: Result<String, GenerationError>)
    ensures
        match r {
            Ok(marker) => usable_width(input@) == Ok::<Seq<char>, GenerationError>(marker@),
            Err(error) => usable_width(input@) == Err::<Seq<char>, GenerationError>(error),
        },
{
    match input.kind {
        DeclKind::Enumeration => {},
        DeclKind::Record | DeclKind::Union => {
            return Err(GenerationError::DeclarationShape);
        },
    }
    match get_repr_size(input.attributes.as_slice()) {
        Some(marker) => Ok(marker),
        None => Err(GenerationError::ReprAttribute),
    }
}

/// Generates the capability for a declaration.
///
/// Generation fails for a record or a union, and for an enumeration
/// without a usable width marker. Otherwise the variants are numbered by
/// position, from zero, in the class of integer that the marker selects.
pub fn derive_number_enum(input: &Declaration) -> (r: Result<Capability, GenerationError>)
    ensures
        match r {
            Ok(made) => generated(input@) == Ok::<CapabilityView, GenerationError>(made@)
                && made@.wf(),
            Err(error) => generated(input@) == Err::<CapabilityView, GenerationError>(error),
        },
{
    let repr = match validate(input) {
        Ok(marker) => marker,
        Err(error) => {
            return Err(error);
        },
    };
    Ok(Capability::synthesize(input.name.as_str(), input.variants.as_slice(), repr.as_str()))
}

/// A record or a union is refused for its shape, whatever its attributes,
/// and nothing is generated for it.
pub proof fn lemma_record_or_union_is_refused(input: DeclarationView)
    requires
        input.kind != DeclKind::Enumeration,
    ensures
        generated(input) == Err::<CapabilityView, GenerationError>(
            GenerationError::DeclarationShape,
        ),
{
}

/// An enumeration whose representation is declared as the layout marker
/// alone is refused for its width marker. `at` is the position of the
/// attribute that declares the representation: no earlier one does.
pub proof fn lemma_layout_marker_is_refused(input: DeclarationView, at: int)
    requires
        input.kind == DeclKind::Enumeration,
        0 <= at < input.attributes.len(),
        forall|j: int| 0 <= j < at ==> !(#[trigger] input.attributes[j]).declares_repr(),
        input.attributes[at].declares_repr(),
        input.attributes[at].arguments == Some(seq![TokenView::Ident(inspect::LAYOUT_MARKER@)]),
    ensures
        generated(input) == Err::<CapabilityView, GenerationError>(GenerationError::ReprAttribute),
{
    inspect::lemma_first_repr_decides(input.attributes, at);
}

/// An enumeration none of whose attributes declares a representation is
/// refused for its width marker.
pub proof fn lemma_missing_marker_is_refused(input: DeclarationView)
    requires
        input.kind == DeclKind::Enumeration,
        forall|j: int|
            0 <= j < input.attributes.len() ==> !(#[trigger] input.attributes[j]).declares_repr(),
    ensures
        generated(input) == Err::<CapabilityView, GenerationError>(GenerationError::ReprAttribute),
{
    inspect::lemma_no_repr_no_width(input.attributes);
}

} // verus!
