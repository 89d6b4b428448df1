//! Binary operators and the identity rule of each.

use vstd::prelude::*;

verus! {

/// The operator of a binary expression.
#[derive(Clone, Copy, Debug, PartialEq, Eq, Structural)]
pub enum BinOpKind {
    Add,
    Sub,
    Mul,
    Div,
    Rem,
    And,
    Or,
    BitXor,
    BitAnd,
    BitOr,
    Shl,
    Shr,
    Eq,
    Lt,
    Le,
    Ne,
    Ge,
    Gt,
}

/// The operand value that makes an operator a no-op.
#[derive(Clone, Copy, Debug, PartialEq, Eq, Structural)]
pub enum IdentityTarget {
    Zero,
    One,
    /// Every bit set; which integer that is depends on the operand's type.
    AllOnes,
}

/// The operand positions in which an identity value makes the operator a no-op.
#[derive(Clone, Copy, Debug, PartialEq, Eq, Structural)]
pub enum Sides {
    Left,
    Right,
    Both,
}

/// For one operator: where to look for the identity value, and for which.
#[derive(Clone, Copy, Debug, PartialEq, Eq, Structural)]
pub struct IdentityRule {
    pub sides: Sides,
    pub target: IdentityTarget,
}

impl Sides {
    pub open spec fn includes_left(self) -> bool {
        self == Sides::Left || self == Sides::Both
    }

    pub open spec fn includes_right(self) -> bool {
        self == Sides::Right || self == Sides::Both
    }

    /// Whether the left operand is looked at.
    pub fn checks_left(&self) -> (b: bool)
        ensures
            b == self.includes_left(),
    {
        match self {
            Sides::Left | Sides::Both => true,
            Sides::Right => false,
        }
    }

    /// Whether the right operand is looked at.
    pub fn checks_right(&self) -> (b: bool)
        ensures
            b == self.includes_right(),
    {
        match self {
            Sides::Right | Sides::Both => true,
            Sides::Left => false,
        }
    }
}

/// The table of identity rules. The commutative operators are checked on both
/// sides; subtraction, division and the shifts only have a right identity; the
/// remaining operators have none.
pub open spec fn rule_of(op: BinOpKind) -> Option<IdentityRule> {
    match op {
        BinOpKind::Add | BinOpKind::BitOr | BinOpKind::BitXor => Some(
            IdentityRule { sides: Sides::Both, target: IdentityTarget::Zero },
        ),
        BinOpKind::Sub | BinOpKind::Shl | BinOpKind::Shr => Some(
            IdentityRule { sides: Sides::Right, target: IdentityTarget::Zero },
        ),
        BinOpKind::Mul => Some(IdentityRule { sides: Sides::Both, target: IdentityTarget::One }),
        BinOpKind::Div => Some(IdentityRule { sides: Sides::Right, target: IdentityTarget::One }),
        BinOpKind::BitAnd => Some(
            IdentityRule { sides: Sides::Both, target: IdentityTarget::AllOnes },
        ),
        _ => None,
    }
}

impl BinOpKind {
    /// Looks the operator up in the table of identity rules.
    pub fn identity_rule(&self) -> (r: Option<IdentityRule>)
        ensures
            r == rule_of(*self),
    {
        match self {
            BinOpKind::Add | BinOpKind::BitOr | BinOpKind::BitXor => Some(
                IdentityRule { sides: Sides::Both, target: IdentityTarget::Zero },
            ),
            BinOpKind::Sub | BinOpKind::Shl | BinOpKind::Shr => Some(
                IdentityRule { sides: Sides::Right, target: IdentityTarget::Zero },
            ),
            BinOpKind::Mul => Some(
                IdentityRule { sides: Sides::Both, target: IdentityTarget::One },
            ),
            BinOpKind::Div => Some(
                IdentityRule { sides: Sides::Right, target: IdentityTarget::One },
            ),
            BinOpKind::BitAnd => Some(
                IdentityRule { sides: Sides::Both, target: IdentityTarget::AllOnes },
            ),
            BinOpKind::Rem
            | BinOpKind::And
            | BinOpKind::Or
            | BinOpKind::Eq
            | BinOpKind::Lt
            | BinOpKind::Le
            | BinOpKind::Ne
            | BinOpKind::Ge
            | BinOpKind::Gt => None,
        }
    }
}

} // verus!
