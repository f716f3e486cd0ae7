//! The ordinal tables: every variant paired with its position.

use vstd::prelude::*;
use crate::declaration::text_views;
use crate::width::WidthClass;

verus! {

/// One line of the forward table: the variant at `position` is converted
/// to that position, cast to the declared width.
#[derive(Debug, PartialEq, Eq)]
pub struct ToArm {
    pub variant: String,
    pub position: usize,
}

/// What a [`ToArm`] stands for in contracts.
pub struct ToArmView {
    pub variant: Seq<char>,
    pub position: int,
}

impl View for ToArm {
    type V = ToArmView;

    open spec fn view(&self) -> ToArmView {
        ToArmView { variant: self.variant@, position: self.position as int }
    }
}

impl Clone for ToArm {
    fn clone(&self) -> (r: Self)
        ensures
            r@ == self@,
    {
        ToArm { variant: self.variant.clone(), position: self.position }
    }
}

/// One line of the reverse table: `number` is converted to `variant`.
#[derive(Debug, PartialEq, Eq)]
pub struct FromArm {
    pub number: u16,
    pub variant: String,
}

/// What a [`FromArm`] stands for in contracts.
pub struct FromArmView {
    pub number: int,
    pub variant: Seq<char>,
}

impl View for FromArm {
    type V = FromArmView;

    open spec fn view(&self) -> FromArmView {
        FromArmView { number: self.number as int, variant: self.variant@ }
    }
}

impl Clone for FromArm {
    fn clone(&self) -> (r: Self)
        ensures
            r@ == self@,
    {
        FromArm { number: self.number, variant: self.variant.clone() }
    }
}

/// The two conversions of one enumeration: from a variant to its number
/// and from a number back to its variant.
#[derive(Debug, PartialEq, Eq)]
pub struct ConvertTraits {
    /// The enumeration's name.
    pub name: String,
    /// The width marker as it was declared.
    pub repr: String,
    /// The class of integer that the marker selects.
    pub width: WidthClass,
    /// The forward table, one line for each variant in declaration order.
    pub enum_to_number: Vec<ToArm>,
    /// The reverse table, one line for each variant in declaration order.
    /// Where two lines hold the same number, the first one decides.
    pub number_to_enum: Vec<FromArm>,
}

/// What a [`ConvertTraits`] stands for in contracts.
pub struct ConvertTraitsView {
    pub name: Seq<char>,
    pub repr: Seq<char>,
    pub width: WidthClass,
    pub enum_to_number: Seq<ToArmView>,
    pub number_to_enum: Seq<FromArmView>,
}

impl View for ConvertTraits {
    type V = ConvertTraitsView;

    open spec fn view(&self) -> ConvertTraitsView {
        ConvertTraitsView {
            name: self.name@,
            repr: self.repr@,
            width: self.width,
            enum_to_number: self.enum_to_number@.map_values(|arm: ToArm| arm@),
            number_to_enum: self.number_to_enum@.map_values(|arm: FromArm| arm@),
        }
    }
}

impl Clone for ConvertTraits {
    fn clone(&self) -> (r: Self)
        ensures
            r@ == self@,
    {
        let r = ConvertTraits {
            name: self.name.clone(),
            repr: self.repr.clone(),
            width: self.width,
            enum_to_number: self.enum_to_number.clone(),
            number_to_enum: self.number_to_enum.clone(),
        };
        proof {
            assert(r@.enum_to_number =~= self@.enum_to_number);
            assert(r@.number_to_enum =~= self@.number_to_enum);
        }
        r
    }
}

/// The conversions of the enumeration `name` with the given variants and
/// width marker: the variant at position `i` goes to `i` cast to the
/// marker's class, and that number goes back to it.
pub open spec fn convert_traits(
    name: Seq<char>,
    variants: Seq<Seq<char>>,
    repr: Seq<char>,
) -> ConvertTraitsView {
    let width = WidthClass::of_marker(repr);
    ConvertTraitsView {
        name,
        repr,
        width,
        enum_to_number: Seq::new(
            variants.len(),
            |i: int| ToArmView { variant: variants[i], position: i },
        ),
        number_to_enum: Seq::new(
            variants.len(),
            |i: int| FromArmView { number: width.cast(i), variant: variants[i] },
        ),
    }
}

impl ConvertTraitsView {
    /// The names of the variants, in declaration order.
    pub open spec fn variants(self) -> Seq<Seq<char>> {
        self.enum_to_number.map_values(|arm: ToArmView| arm.variant)
    }

    /// The number of variants.
    pub open spec fn count(self) -> int {
        self.enum_to_number.len() as int
    }

    /// The tables are those that the enumerator builds from these names
    /// and this marker: ordinals are positions, contiguous from zero.
    pub open spec fn wf(self) -> bool {
        self == convert_traits(self.name, self.variants(), self.repr)
    }

    /// What well-formed tables hold, line by line.
    pub proof fn lemma_wf_lines(self)
        requires
            self.wf(),
        ensures
            self.width == WidthClass::of_marker(self.repr),
            self.number_to_enum.len() == self.count(),
            forall|i: int|
                0 <= i < self.count() ==> (#[trigger] self.enum_to_number[i]).position == i,
            forall|i: int|
                0 <= i < self.count() ==> (#[trigger] self.number_to_enum[i]).number
                    == self.width.cast(i),
            forall|i: int|
                0 <= i < self.count() ==> (#[trigger] self.number_to_enum[i]).variant
                    == self.enum_to_number[i].variant,
    {
    }
}

/// Walks the variant list once and builds both tables.
pub fn impl_convert_traits(name: &str, variants: &[String], repr: &str) -> (r: ConvertTraits)
    ensures
        r@ == convert_traits(name@, text_views(variants@), repr@),
        r@.wf(),
{
    let width = WidthClass::from_marker(repr);
    let mut enum_to_number: Vec<ToArm> = Vec::new();
    let mut number_to_enum: Vec<FromArm> = Vec::new();
    let mut current_number: usize = 0;
    while current_number < variants.len()
        invariant
            current_number <= variants.len(),
            enum_to_number.len() == current_number,
            number_to_enum.len() == current_number,
            forall|j: int|
                0 <= j < current_number ==> (#[trigger] enum_to_number[j])@ == (ToArmView {
                    variant: variants[j]@,
                    position: j,
                }),
            forall|j: int|
                0 <= j < current_number ==> (#[trigger] number_to_enum[j])@ == (FromArmView {
                    number: width.cast(j),
                    variant: variants[j]@,
                }),
        decreases variants.len() - current_number,
    {
        let variant_name = &variants[current_number];
        enum_to_number.push(ToArm { variant: variant_name.clone(), position: current_number });
        number_to_enum.push(
            FromArm { number: width.cast_position(current_number), variant: variant_name.clone() },
        );
        current_number += 1;
    }
    let r = ConvertTraits {
        name: name.to_owned(),
        repr: repr.to_owned(),
        width,
        enum_to_number,
        number_to_enum,
    };
    proof {
        let made = convert_traits(name@, text_views(variants@), repr@);
        assert(r@.enum_to_number =~= made.enum_to_number);
        assert(r@.number_to_enum =~= made.number_to_enum);
        assert(r@.variants() =~= text_views(variants@));
    }
    r
}

} // verus!
