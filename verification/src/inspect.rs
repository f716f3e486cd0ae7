//! Recovery of the declared integer width from a type's attributes.

use vstd::prelude::*;
use crate::declaration::{attribute_views, Attribute, AttributeView, Token, TokenView};
use crate::text::spells;

verus! {

/// The name of the attribute that declares a representation.
pub const REPR_NAME: &'static str = "repr";

/// The marker that asks for a foreign-compatible layout. It fixes no
/// width.
pub const LAYOUT_MARKER: &'static str = "C";

impl AttributeView {
    /// The attribute is named `repr` and takes a bracketed argument.
    pub open spec fn declares_repr(self) -> bool {
        self.name == Some(REPR_NAME@) && self.arguments is Some
    }

    /// The width marker in the attribute's argument: its only token, where
    /// that is an identifier other than the layout marker.
    pub open spec fn marker(self) -> Option<Seq<char>> {
        match self.arguments {
            Some(tokens) => if tokens.len() == 1 {
                match tokens[0] {
                    TokenView::Ident(text) => if text == LAYOUT_MARKER@ {
                        None
                    } else {
                        Some(text)
                    },
                    TokenView::Other => None,
                }
            } else {
                None
            },
            None => None,
        }
    }
}

/// The width marker that a list of attributes declares: that of the first
/// attribute that declares a representation, whatever follows it.
pub open spec fn repr_size(attributes: Seq<AttributeView>) -> Option<Seq<char>>
    decreases attributes.len(),
{
    if attributes.len() == 0 {
        None
    } else if attributes[0].declares_repr() {
        attributes[0].marker()
    } else {
        repr_size(attributes.drop_first())
    }
}

/// Attributes that declare no representation are passed over.
proof fn lemma_repr_size_skips(attributes: Seq<AttributeView>, n: int)
    requires
        0 <= n <= attributes.len(),
        forall|j: int| 0 <= j < n ==> !(#[trigger] attributes[j]).declares_repr(),
    ensures
        repr_size(attributes) == repr_size(attributes.skip(n)),
    decreases n,
{
    if n > 0 {
        let rest = attributes.drop_first();
        assert(!attributes[0].declares_repr());
        assert forall|j: int| 0 <= j < n - 1 implies !(#[trigger] rest[j]).declares_repr() by {
            assert(rest[j] == attributes[j + 1]);
        }
        lemma_repr_size_skips(rest, n - 1);
        assert(rest.skip(n - 1) =~= attributes.skip(n));
    } else {
        assert(attributes.skip(0) =~= attributes);
    }
}

/// The first attribute that declares a representation decides: the width
/// marker of the list is the marker in that attribute's argument.
pub proof fn lemma_first_repr_decides(attributes: Seq<AttributeView>, at: int)
    requires
        0 <= at < attributes.len(),
        attributes[at].declares_repr(),
        forall|j: int| 0 <= j < at ==> !(#[trigger] attributes[j]).declares_repr(),
    ensures
        repr_size(attributes) == attributes[at].marker(),
{
    lemma_repr_size_skips(attributes, at);
    assert(attributes.skip(at)[0] == attributes[at]);
}

/// Where no attribute declares a representation, no width is found.
pub proof fn lemma_no_repr_no_width(attributes: Seq<AttributeView>)
    requires
        forall|j: int|
            0 <= j < attributes.len() ==> !(#[trigger] attributes[j]).declares_repr(),
    ensures
        repr_size(attributes) is None,
{
    lemma_repr_size_skips(attributes, attributes.len() as int);
}

/// Reads the width marker out of one attribute's argument.
fn marker_of(attribute: &Attribute) -> (r: Option<String>)
    ensures
        match r {
            Some(marker) => attribute@.marker() == Some(marker@),
            None => attribute@.marker() is None,
        },
{
    match &attribute.arguments {
        Some(tokens) => {
            if tokens.len() != 1 {
                return None;
            }
            assert(attribute@.arguments->0[0] == tokens[0]@);
            match &tokens[0] {
                Token::Ident(text) => {
                    if spells(text.as_str(), LAYOUT_MARKER) {
                        None
                    } else {
                        Some(text.clone())
                    }
                },
                Token::Other => None,
            }
        },
        None => None,
    }
}

/// Whether the attribute is named `repr` and takes a bracketed argument.
fn declares_repr(attribute: &Attribute) -> (r: bool)
    ensures
        r == attribute@.declares_repr(),
{
    match &attribute.name {
        Some(name) => spells(name.as_str(), REPR_NAME) && attribute.arguments.is_some(),
        None => false,
    }
}

/// Finds the width marker among a type's attributes.
///
/// The first attribute named `repr` that takes a bracketed argument
/// decides. Its argument must be a single identifier, and not the layout
/// marker `C`; that identifier is the marker. In every other case no width
/// is found.
pub fn get_repr_size(attrs: &[Attribute]) -> (r: Option<String>)
    ensures
        match r {
            Some(marker) => repr_size(attribute_views(attrs@)) == Some(marker@),
            None => repr_size(attribute_views(attrs@)) is None,
        },
{
    let ghost views = attribute_views(attrs@);
    let mut i: usize = 0;
    while i < attrs.len()
        invariant
            i <= attrs.len(),
            views == attribute_views(attrs@),
            forall|j: int| 0 <= j < i ==> !(#[trigger] views[j]).declares_repr(),
        decreases attrs.len() - i,
    {
        let attr = &attrs[i];
        assert(views[i as int] == attr@);
        if declares_repr(attr) {
            proof {
                lemma_first_repr_decides(views, i as int);
            }
            return marker_of(attr);
        }
        i += 1;
    }
    proof {
        lemma_no_repr_no_width(views);
    }
    None
}

} // verus!
