//! The detector: which operands of a binary expression make it a no-op, and
//! what is reported for each.

use vstd::prelude::*;

use crate::constant::IntegerConstant;
use crate::diagnostic::{
    diagnostic_for, identity_op, identity_op_lint, Diagnostic, DiagnosticView, Lint,
};
use crate::expr::{BinaryExpression, BinaryExpressionView, Operand, OperandView, Span};
use crate::int_type::{all_ones_value, IntegerTypeInfo};
use crate::operator::{rule_of, IdentityTarget};

verus! {

/// Whether `value`, held in an operand of type `ty`, is the identity value
/// `target`. Zero and one are the same in every type. For every bit set the
/// operand's own type decides which integer is meant, and without a type
/// nothing matches.
pub open spec fn is_identity_value(
    value: int,
    ty: Option<IntegerTypeInfo>,
    target: IdentityTarget,
) -> bool {
    match target {
        IdentityTarget::Zero => value == 0,
        IdentityTarget::One => value == 1,
        IdentityTarget::AllOnes => match ty {
            None => false,
            Some(info) => value == all_ones_value(info),
        },
    }
}

/// Whether `operand` is known to be the identity value `target`. An operand
/// that does not fold to a constant never is.
pub open spec fn is_identity(operand: OperandView, target: IdentityTarget) -> bool {
    match operand.constant {
        None => false,
        Some(value) => is_identity_value(value, operand.ty, target),
    }
}

/// What one operand contributes: one diagnostic over `span` that suggests the
/// other operand, if this one is the identity value; else nothing.
pub open spec fn side_diagnostics(
    operand: OperandView,
    target: IdentityTarget,
    span: Span,
    other: OperandView,
) -> Seq<DiagnosticView> {
    if is_identity(operand, target) {
        seq![diagnostic_for(span, other.snippet)]
    } else {
        Seq::empty()
    }
}

/// What the left operand of `e` contributes under the rule of its operator.
pub open spec fn left_diagnostics(e: BinaryExpressionView) -> Seq<DiagnosticView> {
    match rule_of(e.op) {
        Some(rule) if rule.sides.includes_left() => side_diagnostics(
            e.left,
            rule.target,
            e.span,
            e.right,
        ),
        _ => Seq::empty(),
    }
}

/// What the right operand of `e` contributes under the rule of its operator.
pub open spec fn right_diagnostics(e: BinaryExpressionView) -> Seq<DiagnosticView> {
    match rule_of(e.op) {
        Some(rule) if rule.sides.includes_right() => side_diagnostics(
            e.right,
            rule.target,
            e.span,
            e.left,
        ),
        _ => Seq::empty(),
    }
}

/// Everything that is reported for `e`: nothing for generated code; else what
/// the left operand contributes, then what the right one does.
pub open spec fn diagnostics_of(e: BinaryExpressionView) -> Seq<DiagnosticView> {
    if e.span.generated {
        Seq::empty()
    } else {
        left_diagnostics(e) + right_diagnostics(e)
    }
}

/// Whether `constant`, the value of an operand of type `ty`, is the identity
/// value `target`.
pub fn matches_target(
    constant: &IntegerConstant,
    ty: &Option<IntegerTypeInfo>,
    target: IdentityTarget,
) -> (b: bool)
    ensures
        b == is_identity_value(constant@, *ty, target),
{
    match target {
        IdentityTarget::Zero => constant.equals_int(0),
        IdentityTarget::One => constant.equals_int(1),
        IdentityTarget::AllOnes => match ty {
            None => false,
            Some(info) => match info.all_ones() {
                Some(ones) => constant.same_value(&ones),
                None => false,
            },
        },
    }
}

/// Checks one operand against the identity value `target`. Where it matches,
/// the diagnostic covers `span`, the whole expression, and suggests the text
/// of `other`, the operand on the other side.
pub fn check(operand: &Operand, target: IdentityTarget, span: Span, other: &Operand) -> (found:
    Option<Diagnostic>)
    ensures
        found is Some <==> is_identity(operand@, target),
        found matches Some(d) ==> d@ == diagnostic_for(span, other@.snippet),
{
    match &operand.constant {
        None => None,
        Some(value) => {
            if matches_target(value, &operand.ty, target) {
                Some(Diagnostic::new(span, &other.snippet))
            } else {
                None
            }
        },
    }
}

/// The pass that finds identity operations. It holds no state.
#[derive(Clone, Copy, Debug)]
pub struct IdentityOp;

impl IdentityOp {
    /// The lints that this pass can report.
    pub fn get_lints(&self) -> (lints: Vec<Lint>)
        ensures
            lints@.len() == 1,
            lints@[0]@ == identity_op_lint(),
    {
        let mut lints: Vec<Lint> = Vec::new();
        lints.push(identity_op());
        lints
    }

    /// Finds the operands of `e` that make it a no-op, left before right, and
    /// returns one diagnostic for each. Generated code and operators without
    /// an identity rule give none.
    pub fn check_expr(&self, e: &BinaryExpression) -> (found: Vec<Diagnostic>)
        ensures
            found.deep_view() == diagnostics_of(e@),
            found@.len() == diagnostics_of(e@).len(),
            forall|i: int|
                0 <= i < found@.len() ==> (#[trigger] found@[i])@ == diagnostics_of(e@)[i],
    {
        let mut found: Vec<Diagnostic> = Vec::new();
        if e.span.generated {
            return found;
        }
        match e.op.identity_rule() {
            None => {},
            Some(rule) => {
                if rule.sides.checks_left() {
                    match check(&e.left, rule.target, e.span, &e.right) {
                        Some(d) => found.push(d),
                        None => {},
                    }
                }
                if rule.sides.checks_right() {
                    match check(&e.right, rule.target, e.span, &e.left) {
                        Some(d) => found.push(d),
                        None => {},
                    }
                }
            },
        }
        found
    }
}

} // verus!
