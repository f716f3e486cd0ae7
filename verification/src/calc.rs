//! The arithmetic that an enumeration is given over its ordinals.

use vstd::prelude::*;

verus! {

/// One of the four operators that are defined on the enumeration. Each is
/// the operator of the declared width, applied to the operands' numbers and
/// converted back.
#[derive(Clone, Copy, Debug, PartialEq, Eq, Structural)]
pub enum Operation {
    /// `a + b`
    Add,
    /// `a - b`
    Sub,
    /// `a += b`
    AddAssign,
    /// `a -= b`
    SubAssign,
}

/// The arithmetic of one enumeration.
#[derive(Debug, PartialEq, Eq)]
pub struct CalcTraits {
    /// The enumeration's name.
    pub name: String,
    /// The width marker as it was declared.
    pub repr: String,
    /// The operators that are defined, in the order of their definition.
    pub operations: Vec<Operation>,
}

/// What a [`CalcTraits`] stands for in contracts.
pub struct CalcTraitsView {
    pub name: Seq<char>,
    pub repr: Seq<char>,
    pub operations: Seq<Operation>,
}

impl View for CalcTraits {
    type V = CalcTraitsView;

    open spec fn view(&self) -> CalcTraitsView {
        CalcTraitsView { name: self.name@, repr: self.repr@, operations: self.operations@ }
    }
}

impl Clone for CalcTraits {
    fn clone(&self) -> (r: Self)
        ensures
            r@ == self@,
    {
        let r = CalcTraits {
            name: self.name.clone(),
            repr: self.repr.clone(),
            operations: self.operations.clone(),
        };
        proof {
            assert(r@.operations =~= self@.operations);
        }
        r
    }
}

/// The arithmetic of the enumeration `name` with the width marker `repr`:
/// addition, subtraction and their in-place forms.
pub open spec fn calc_traits(name: Seq<char>, repr: Seq<char>) -> CalcTraitsView {
    CalcTraitsView {
        name,
        repr,
        operations: seq![
            Operation::Add,
            Operation::Sub,
            Operation::AddAssign,
            Operation::SubAssign,
        ],
    }
}

/// Describes the four operators of the enumeration `name`.
pub fn impl_calc_traits(name: &str, repr: &str) -> (r: CalcTraits)
    ensures
        r@ == calc_traits(name@, repr@),
{
    let mut operations: Vec<Operation> = Vec::new();
    operations.push(Operation::Add);
    operations.push(Operation::Sub);
    operations.push(Operation::AddAssign);
    operations.push(Operation::SubAssign);
    let r = CalcTraits { name: name.to_owned(), repr: repr.to_owned(), operations };
    assert(r@.operations =~= calc_traits(name@, repr@).operations);
    r
}

} // verus!
