//! The value that an operand folds to.

use vstd::prelude::*;

verus! {

/// A folded integer constant, held as sign and magnitude so that every value of
/// every integer type up to 128 bits, signed or unsigned, has a representation.
#[derive(Clone, Copy, Debug)]
pub struct IntegerConstant {
    pub negative: bool,
    pub magnitude: u128,
}

impl View for IntegerConstant {
    type V = int;

    /// The integer that the constant stands for. A negative sign on a zero
    /// magnitude is still zero.
    open spec fn view(&self) -> int {
        if self.negative {
            -(self.magnitude as int)
        } else {
            self.magnitude as int
        }
    }
}

impl IntegerConstant {
    /// The constant for a value of an unsigned type.
    pub fn from_u128(value: u128) -> (c: IntegerConstant)
        ensures
            c@ == value as int,
            !c.negative,
    {
        IntegerConstant { negative: false, magnitude: value }
    }

    /// The constant for a value of a signed type.
    pub fn from_i128(value: i128) -> (c: IntegerConstant)
        ensures
            c@ == value as int,
    {
        if value < 0 {
            IntegerConstant { negative: true, magnitude: magnitude_of_negative(value) }
        } else {
            IntegerConstant { negative: false, magnitude: value as u128 }
        }
    }

    /// Whether two constants are the same integer.
    pub fn same_value(&self, other: &IntegerConstant) -> (b: bool)
        ensures
            b == (self@ == other@),
    {
        self.magnitude == other.magnitude && (self.negative == other.negative
            || self.magnitude == 0)
    }

    /// Whether the constant is the integer `value`.
    pub fn equals_int(&self, value: i128) -> (b: bool)
        ensures
            b == (self@ == value as int),
    {
        if value < 0 {
            self.negative && self.magnitude == magnitude_of_negative(value)
        } else {
            self.magnitude == value as u128 && (!self.negative || self.magnitude == 0)
        }
    }
}

/// The distance of a negative value from zero. It is computed from `value + 1`,
/// so that the smallest `i128` is no special case.
fn magnitude_of_negative(value: i128) -> (m: u128)
    requires
        value < 0,
    ensures
        m as int == -(value as int),
{
    let above: i128 = -(value + 1);
    above as u128 + 1
}

} // verus!
