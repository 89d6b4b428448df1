//! A binary expression as the host describes it: plain values, nothing to query.

use vstd::prelude::*;

use crate::constant::IntegerConstant;
use crate::int_type::IntegerTypeInfo;
use crate::operator::BinOpKind;

verus! {

/// A range of source text, and whether that text was produced by automatic
/// expansion rather than written by hand.
#[derive(Clone, Copy, Debug, PartialEq, Eq, Structural)]
pub struct Span {
    pub lo: u32,
    pub hi: u32,
    pub generated: bool,
}

/// One operand of a binary expression, with what the host found out about it.
#[derive(Clone, Debug)]
pub struct Operand {
    pub span: Span,
    /// The integer that the operand folds to; `None` where it is not
    /// statically known.
    pub constant: Option<IntegerConstant>,
    /// The operand's integer type; `None` where it has none or it is unresolved.
    pub ty: Option<IntegerTypeInfo>,
    /// The operand's source text; `None` where it cannot be recovered.
    pub snippet: Option<String>,
}

/// An [`Operand`] in specifications.
pub struct OperandView {
    pub span: Span,
    pub constant: Option<int>,
    pub ty: Option<IntegerTypeInfo>,
    pub snippet: Option<Seq<char>>,
}

impl View for Operand {
    type V = OperandView;

    open spec fn view(&self) -> OperandView {
        OperandView {
            span: self.span,
            constant: match self.constant {
                Some(c) => Some(c@),
                None => None,
            },
            ty: self.ty,
            snippet: match self.snippet {
                Some(s) => Some(s@),
                None => None,
            },
        }
    }
}

/// A binary expression: the operator, its two operands and the range of the
/// whole.
#[derive(Clone, Debug)]
pub struct BinaryExpression {
    pub op: BinOpKind,
    pub left: Operand,
    pub right: Operand,
    pub span: Span,
}

/// A [`BinaryExpression`] in specifications.
pub struct BinaryExpressionView {
    pub op: BinOpKind,
    pub left: OperandView,
    pub right: OperandView,
    pub span: Span,
}

impl View for BinaryExpression {
    type V = BinaryExpressionView;

    open spec fn view(&self) -> BinaryExpressionView {
        BinaryExpressionView {
            op: self.op,
            left: self.left@,
            right: self.right@,
            span: self.span,
        }
    }
}

} // verus!
