//! The two classes of integer width and their native arithmetic.

use vstd::prelude::*;
use crate::text::spells;

verus! {

/// The class of integer in which ordinals are held.
#[derive(Clone, Copy, Debug, PartialEq, Eq, Structural)]
pub enum WidthClass {
    /// Eight bits, unsigned: the marker `u8`.
    Byte,
    /// Sixteen bits, unsigned: every other marker, whatever width its
    /// name suggests.
    Word,
}

/// The one marker that selects [`WidthClass::Byte`].
pub const BYTE_MARKER: &'static str = "u8";

impl WidthClass {
    /// The class that a width marker selects.
    pub open spec fn of_marker(marker: Seq<char>) -> WidthClass {
        if marker == BYTE_MARKER@ {
            WidthClass::Byte
        } else {
            WidthClass::Word
        }
    }

    /// The number of values that the class holds: its numbers are the
    /// integers from 0 up to, not including, the modulus.
    pub open spec fn modulus(self) -> int {
        match self {
            WidthClass::Byte => 0x100,
            WidthClass::Word => 0x1_0000,
        }
    }

    /// Whether `n` is a number of the class.
    pub open spec fn holds(self, n: int) -> bool {
        0 <= n < self.modulus()
    }

    /// `n` cast to the class: its low bits.
    pub open spec fn cast(self, n: int) -> int {
        n % self.modulus()
    }

    /// The class's native sum. It wraps around, as the integer type's own
    /// addition does where overflow is not trapped.
    pub open spec fn wrapping_sum(self, x: int, y: int) -> int {
        (x + y) % self.modulus()
    }

    /// The class's native difference. It wraps around, as the integer
    /// type's own subtraction does where overflow is not trapped.
    pub open spec fn wrapping_difference(self, x: int, y: int) -> int {
        (x - y) % self.modulus()
    }

    /// Reads the class off a width marker.
    pub fn from_marker(marker: &str) -> (r: WidthClass)
        ensures
            r == Self::of_marker(marker@),
    {
        if spells(marker, BYTE_MARKER) {
            WidthClass::Byte
        } else {
            WidthClass::Word
        }
    }

    /// The modulus as a machine integer.
    pub fn size(self) -> (r: u32)
        ensures
            r == self.modulus(),
    {
        match self {
            WidthClass::Byte => 0x100,
            WidthClass::Word => 0x1_0000,
        }
    }

    /// Casts a position in a variant list to the class.
    pub fn cast_position(self, position: usize) -> (r: u16)
        ensures
            r == self.cast(position as int),
    {
        match self {
            WidthClass::Byte => (position % 0x100) as u16,
            WidthClass::Word => (position % 0x1_0000) as u16,
        }
    }

    /// Adds two numbers as the class's integer type does, wrapping around.
    pub fn native_add(self, x: u16, y: u16) -> (r: u16)
        ensures
            r == self.wrapping_sum(x as int, y as int),
    {
        let sum: u32 = x as u32 + y as u32;
        (sum % self.size()) as u16
    }

    /// Subtracts `y` from `x` as the class's integer type does, wrapping
    /// around.
    pub fn native_sub(self, x: u16, y: u16) -> (r: u16)
        ensures
            r == self.wrapping_difference(x as int, y as int),
    {
        let lifted: u32 = x as u32 + 0x1_0000 - y as u32;
        (lifted % self.size()) as u16
    }
}

} // verus!
