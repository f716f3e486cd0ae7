//! The generated capability: both conversions and the four operators of one
//! enumeration, with what each of them computes.
//!
//! A number that stands for no variant cannot be converted back, and a sum
//! or a difference that comes to such a number has no value. In the emitted
//! code such a conversion is fatal: it panics, and the caller cannot go on.
//! Here the plain forms ([`Capability::from_number`], [`Capability::add`],
//! [`Capability::sub`] and the in-place forms) rule those operands out by
//! precondition, so that verified callers never reach the fault. The
//! `checked_` forms take every operand and report an
//! [`InvalidOrdinalFault`] instead of giving up.

use vstd::prelude::*;
use vstd::pervasive::unreached;
use crate::calc::{calc_traits, impl_calc_traits, CalcTraits, CalcTraitsView};
use crate::declaration::text_views;
use crate::fault::InvalidOrdinalFault;
use crate::text::spells;
use crate::table::{
    convert_traits, impl_convert_traits, ConvertTraits, ConvertTraitsView, FromArm,
};
use crate::width::{WidthClass, BYTE_MARKER};

verus! {

/// A value of the enumeration: the variant at `index` in declaration order.
#[derive(Clone, Copy, Debug, PartialEq, Eq, Structural)]
pub struct Variant {
    pub index: usize,
}

/// All that is generated for one enumeration: the conversions to and
/// from the declared integer width, and the operators defined through them.
///
/// A value of this type is always one that [`Capability::synthesize`] makes.
#[derive(Debug, PartialEq, Eq)]
pub struct Capability {
    convert: ConvertTraits,
    calc: CalcTraits,
}

/// What a [`Capability`] stands for in contracts.
pub struct CapabilityView {
    pub convert: ConvertTraitsView,
    pub calc: CalcTraitsView,
}

impl View for Capability {
    type V = CapabilityView;

    closed spec fn view(&self) -> CapabilityView {
        CapabilityView { convert: self.convert@, calc: self.calc@ }
    }
}

impl Clone for Capability {
    fn clone(&self) -> (r: Self)
        ensures
            r@ == self@,
    {
        proof {
            use_type_invariant(self);
        }
        Capability { convert: self.convert.clone(), calc: self.calc.clone() }
    }
}

/// The capability of the enumeration `name` with the given variants and
/// width marker.
pub open spec fn capability(
    name: Seq<char>,
    variants: Seq<Seq<char>>,
    repr: Seq<char>,
) -> CapabilityView {
    CapabilityView {
        convert: convert_traits(name, variants, repr),
        calc: calc_traits(name, repr),
    }
}

impl CapabilityView {
    /// The capability is one that is generated: its tables pair every
    /// variant with its position, and its operators are those of the same
    /// enumeration and width.
    pub open spec fn wf(self) -> bool {
        self == capability(self.convert.name, self.convert.variants(), self.convert.repr)
    }

    /// The number of variants.
    pub open spec fn count(self) -> int {
        self.convert.count()
    }

    /// The class of integer that conversions work in.
    pub open spec fn width(self) -> WidthClass {
        self.convert.width
    }

    /// Whether `value` is a variant of this enumeration.
    pub open spec fn has_variant(self, value: Variant) -> bool {
        value.index < self.count()
    }

    /// Whether `value` has a number of its own: its position fits the
    /// declared width. Variants beyond that share the numbers of earlier
    /// ones.
    pub open spec fn has_own_number(self, value: Variant) -> bool {
        value.index < self.width().modulus()
    }

    /// The number of a variant: its position, cast to the declared width.
    pub open spec fn to_number(self, value: Variant) -> int {
        self.width().cast(value.index as int)
    }

    /// The variant that a number stands for: the one at that position, if
    /// there is one.
    pub open spec fn from_number(self, number: int) -> Option<Variant> {
        if self.width().holds(number) && number < self.count() {
            Some(Variant { index: number as usize })
        } else {
            None
        }
    }

    /// The sum of two variants: the variant that the wrapping sum of their
    /// numbers stands for, if there is one.
    pub open spec fn sum(self, a: Variant, b: Variant) -> Option<Variant> {
        self.from_number(self.width().wrapping_sum(self.to_number(a), self.to_number(b)))
    }

    /// The difference of two variants: the variant that the wrapping
    /// difference of their numbers stands for, if there is one.
    pub open spec fn difference(self, a: Variant, b: Variant) -> Option<Variant> {
        self.from_number(self.width().wrapping_difference(self.to_number(a), self.to_number(b)))
    }
}

/// The forward table holds the conversion to a number: the line of a
/// variant holds its number, once cast.
pub proof fn lemma_forward_line(this: CapabilityView, value: Variant)
    requires
        this.wf(),
        this.has_variant(value),
    ensures
        this.width().cast(this.convert.enum_to_number[value.index as int].position)
            == this.to_number(value),
{
    this.convert.lemma_wf_lines();
}

/// The reverse table holds the conversion from a number: the first line
/// with the number names the variant that it stands for.
pub proof fn lemma_first_reverse_line_decides(this: CapabilityView, number: int, line: int)
    requires
        this.wf(),
        0 <= line < this.count(),
        this.convert.number_to_enum[line].number == number,
        forall|j: int| 0 <= j < line ==> (#[trigger] this.convert.number_to_enum[j]).number != number,
    ensures
        line == number,
        this.from_number(number) == Some(Variant { index: line as usize }),
{
    this.convert.lemma_wf_lines();
    assert(number == this.width().cast(line));
    if number < line {
        assert(this.convert.number_to_enum[number].number == this.width().cast(number));
    }
}

/// A number that no line of the reverse table holds stands for no variant.
pub proof fn lemma_no_reverse_line(this: CapabilityView, number: int)
    requires
        this.wf(),
        forall|j: int|
            0 <= j < this.count() ==> (#[trigger] this.convert.number_to_enum[j]).number != number,
    ensures
        this.from_number(number) is None,
{
    this.convert.lemma_wf_lines();
    if this.from_number(number) is Some {
        assert(this.convert.number_to_enum[number].number == this.width().cast(number));
    }
}

/// Converting a variant to its number and back gives the same variant,
/// provided it has a number of its own.
pub proof fn lemma_from_number_undoes_to_number(this: CapabilityView, value: Variant)
    requires
        this.has_variant(value),
        this.has_own_number(value),
    ensures
        this.from_number(this.to_number(value)) == Some(value),
{
}

/// Converting a number below the variant count to its variant and back
/// gives the same number.
pub proof fn lemma_to_number_undoes_from_number(this: CapabilityView, number: int)
    requires
        this.width().holds(number),
        number < this.count(),
    ensures
        this.from_number(number) is Some,
        this.has_variant(this.from_number(number)->0),
        this.to_number(this.from_number(number)->0) == number,
{
}

/// A number at or beyond the variant count stands for no variant.
pub proof fn lemma_number_beyond_count_stands_for_none(this: CapabilityView, number: int)
    requires
        number >= this.count(),
    ensures
        this.from_number(number) is None,
{
}

/// With the byte marker conversions work in eight bits: every variant's
/// number fits them, and each of the first 256 variants has its position
/// for its number.
pub proof fn lemma_byte_marker_numbers(name: Seq<char>, variants: Seq<Seq<char>>, value: Variant)
    requires
        value.index < variants.len(),
    ensures
        capability(name, variants, BYTE_MARKER@).width() == WidthClass::Byte,
        capability(name, variants, BYTE_MARKER@).width().modulus() == 0x100,
        0 <= capability(name, variants, BYTE_MARKER@).to_number(value) < 0x100,
        value.index < 0x100 ==> capability(name, variants, BYTE_MARKER@).to_number(value)
            == value.index,
{
}

/// With any other marker, whatever width its name suggests, conversions
/// work in sixteen bits: every variant's number is its position cast to
/// them.
pub proof fn lemma_other_marker_numbers(
    name: Seq<char>,
    variants: Seq<Seq<char>>,
    repr: Seq<char>,
    value: Variant,
)
    requires
        repr != BYTE_MARKER@,
        value.index < variants.len(),
    ensures
        capability(name, variants, repr).width() == WidthClass::Word,
        capability(name, variants, repr).width().modulus() == 0x1_0000,
        0 <= capability(name, variants, repr).to_number(value) < 0x1_0000,
        capability(name, variants, repr).to_number(value) == value.index % 0x1_0000,
{
}

/// Where the sum of two variants is a variant, subtracting the second
/// from it gives the first back, provided the first has a number of its
/// own.
pub proof fn lemma_sub_undoes_add(this: CapabilityView, a: Variant, b: Variant)
    requires
        this.has_variant(a),
        this.has_variant(b),
        this.has_own_number(a),
        this.sum(a, b) is Some,
    ensures
        this.has_variant(this.sum(a, b)->0),
        this.difference(this.sum(a, b)->0, b) == Some(a),
{
}

impl Capability {
    #[verifier::type_invariant]
    spec fn synthesized(self) -> bool {
        self@.wf()
    }

    /// Generates the capability of the enumeration `name`.
    pub fn synthesize(name: &str, variants: &[String], repr: &str) -> (r: Capability)
        ensures
            r@ == capability(name@, text_views(variants@), repr@),
            r@.wf(),
    {
        Capability {
            convert: impl_convert_traits(name, variants, repr),
            calc: impl_calc_traits(name, repr),
        }
    }

    /// The two conversions, as they are to be emitted.
    pub fn convert(&self) -> (r: &ConvertTraits)
        ensures
            r@ == self@.convert,
            self@.wf(),
    {
        proof {
            use_type_invariant(self);
        }
        &self.convert
    }

    /// The operators, as they are to be emitted.
    pub fn calc(&self) -> (r: &CalcTraits)
        ensures
            r@ == self@.calc,
            self@.wf(),
    {
        proof {
            use_type_invariant(self);
        }
        &self.calc
    }

    /// The class of integer that conversions work in.
    pub fn width(&self) -> (r: WidthClass)
        ensures
            r == self@.width(),
    {
        self.convert.width
    }

    /// The number of variants.
    pub fn variant_count(&self) -> (r: usize)
        ensures
            r == self@.count(),
    {
        self.convert.enum_to_number.len()
    }

    /// The name of a variant.
    pub fn name_of(&self, value: Variant) -> (r: &str)
        requires
            self@.has_variant(value),
        ensures
            r@ == self@.convert.variants()[value.index as int],
    {
        let arm = &self.convert.enum_to_number[value.index];
        assert(arm@ == self@.convert.enum_to_number[value.index as int]);
        arm.variant.as_str()
    }

    /// The variant of the given name, if the enumeration has one: the
    /// first, should several have been declared under that name.
    pub fn variant_named(&self, name: &str) -> (r: Option<Variant>)
        ensures
            match r {
                Some(value) => {
                    &&& self@.has_variant(value)
                    &&& self@.convert.variants()[value.index as int] == name@
                    &&& forall|j: int|
                        0 <= j < value.index ==> #[trigger] self@.convert.variants()[j] != name@
                },
                None => forall|j: int|
                    0 <= j < self@.count() ==> #[trigger] self@.convert.variants()[j] != name@,
            },
    {
        let arms = &self.convert.enum_to_number;
        let ghost names = self@.convert.variants();
        let mut i: usize = 0;
        while i < arms.len()
            invariant
                i <= arms.len(),
                arms@.len() == self@.count(),
                names == self@.convert.variants(),
                forall|j: int| 0 <= j < arms.len() ==> #[trigger] names[j] == arms[j].variant@,
                forall|j: int| 0 <= j < i ==> #[trigger] names[j] != name@,
            decreases arms.len() - i,
        {
            if spells(arms[i].variant.as_str(), name) {
                return Some(Variant { index: i });
            }
            i += 1;
        }
        None
    }

    /// Converts a variant to its number.
    pub fn to_number(&self, value: Variant) -> (r: u16)
        requires
            self@.has_variant(value),
        ensures
            r == self@.to_number(value),
            self@.width().holds(r as int),
    {
        let arm = &self.convert.enum_to_number[value.index];
        proof {
            use_type_invariant(self);
            assert(arm@ == self@.convert.enum_to_number[value.index as int]);
            lemma_forward_line(self@, value);
        }
        self.convert.width.cast_position(arm.position)
    }

    /// Converts a number back to the variant it stands for, or reports the
    /// number that stands for none.
    pub fn checked_from_number(&self, value: u16) -> (r: Result<Variant, InvalidOrdinalFault>)
        ensures
            match r {
                Ok(variant) => self@.from_number(value as int) == Some(variant),
                Err(fault) => self@.from_number(value as int) is None && fault.value == value,
            },
    {
        let arms = &self.convert.number_to_enum;
        let ghost table = self@.convert.number_to_enum;
        proof {
            use_type_invariant(self);
            self@.convert.lemma_wf_lines();
        }
        let mut i: usize = 0;
        while i < arms.len()
            invariant
                i <= arms.len(),
                self@.wf(),
                arms@.len() == self@.count(),
                table == self@.convert.number_to_enum,
                table == arms@.map_values(|arm: FromArm| arm@),
                forall|j: int| 0 <= j < i ==> (#[trigger] table[j]).number != value,
            decreases arms.len() - i,
        {
            assert(table[i as int] == arms[i as int]@);
            if arms[i].number == value {
                proof {
                    lemma_first_reverse_line_decides(self@, value as int, i as int);
                }
                return Ok(Variant { index: i });
            }
            i += 1;
        }
        proof {
            lemma_no_reverse_line(self@, value as int);
        }
        Err(InvalidOrdinalFault { value })
    }

    /// Converts a number back to the variant it stands for.
    pub fn from_number(&self, value: u16) -> (r: Variant)
        requires
            self@.from_number(value as int) is Some,
        ensures
            self@.from_number(value as int) == Some(r),
    {
        match self.checked_from_number(value) {
            Ok(variant) => variant,
            Err(_) => unreached(),
        }
    }

    /// Adds two variants, or reports the number that their sum comes to
    /// and that stands for no variant.
    pub fn checked_add(&self, a: Variant, b: Variant) -> (r: Result<Variant, InvalidOrdinalFault>)
        requires
            self@.has_variant(a),
            self@.has_variant(b),
        ensures
            match r {
                Ok(variant) => self@.sum(a, b) == Some(variant),
                Err(fault) => self@.sum(a, b) is None && fault.value == self@.width().wrapping_sum(
                    self@.to_number(a),
                    self@.to_number(b),
                ),
            },
    {
        let enum_num = self.to_number(a);
        let rhs_num = self.to_number(b);
        self.checked_from_number(self.convert.width.native_add(enum_num, rhs_num))
    }

    /// Subtracts `b` from `a`, or reports the number that their difference
    /// comes to and that stands for no variant.
    pub fn checked_sub(&self, a: Variant, b: Variant) -> (r: Result<Variant, InvalidOrdinalFault>)
        requires
            self@.has_variant(a),
            self@.has_variant(b),
        ensures
            match r {
                Ok(variant) => self@.difference(a, b) == Some(variant),
                Err(fault) => self@.difference(a, b) is None && fault.value
                    == self@.width().wrapping_difference(self@.to_number(a), self@.to_number(b)),
            },
    {
        let enum_num = self.to_number(a);
        let rhs_num = self.to_number(b);
        self.checked_from_number(self.convert.width.native_sub(enum_num, rhs_num))
    }

    /// `a + b`
    pub fn add(&self, a: Variant, b: Variant) -> (r: Variant)
        requires
            self@.has_variant(a),
            self@.has_variant(b),
            self@.sum(a, b) is Some,
        ensures
            self@.sum(a, b) == Some(r),
    {
        let enum_num = self.to_number(a);
        let rhs_num = self.to_number(b);
        self.from_number(self.convert.width.native_add(enum_num, rhs_num))
    }

    /// `a - b`
    pub fn sub(&self, a: Variant, b: Variant) -> (r: Variant)
        requires
            self@.has_variant(a),
            self@.has_variant(b),
            self@.difference(a, b) is Some,
        ensures
            self@.difference(a, b) == Some(r),
    {
        let enum_num = self.to_number(a);
        let rhs_num = self.to_number(b);
        self.from_number(self.convert.width.native_sub(enum_num, rhs_num))
    }

    /// `a += b`
    pub fn add_assign(&self, a: &mut Variant, b: Variant)
        requires
            self@.has_variant(*old(a)),
            self@.has_variant(b),
            self@.sum(*old(a), b) is Some,
        ensures
            self@.sum(*old(a), b) == Some(*final(a)),
    {
        *a = self.add(*a, b);
    }

    /// `a -= b`
    pub fn sub_assign(&self, a: &mut Variant, b: Variant)
        requires
            self@.has_variant(*old(a)),
            self@.has_variant(b),
            self@.difference(*old(a), b) is Some,
        ensures
            self@.difference(*old(a), b) == Some(*final(a)),
    {
        *a = self.sub(*a, b);
    }
}

} // verus!
