//! What holds of the detector for every expression.

use vstd::arithmetic::power2::{
    lemma2_to64, lemma_pow2_pos, lemma_pow2_strictly_increases, lemma_pow2_unfold, pow2,
};
use vstd::prelude::*;

use crate::detector::{diagnostics_of, is_identity, left_diagnostics, right_diagnostics};
use crate::diagnostic::{diagnostic_for, identity_op_lint, message_for, DiagnosticView};
use crate::expr::BinaryExpressionView;
use crate::int_type::{all_ones_value, lemma_pow2_128, pattern_value, IntegerTypeInfo};
use crate::operator::{rule_of, BinOpKind, IdentityTarget, Sides};

verus! {

/// The diagnostic that suggests keeping the left operand of `e`.
pub open spec fn keep_left(e: BinaryExpressionView) -> DiagnosticView {
    diagnostic_for(e.span, e.left.snippet)
}

/// The diagnostic that suggests keeping the right operand of `e`.
pub open spec fn keep_right(e: BinaryExpressionView) -> DiagnosticView {
    diagnostic_for(e.span, e.right.snippet)
}

/// What is reported where an operator is checked on both sides for `target`:
/// one diagnostic for each operand that is the identity value, the one for the
/// left operand first. Each suggests the operand on the other side.
pub open spec fn both_sides(e: BinaryExpressionView, target: IdentityTarget) -> Seq<
    DiagnosticView,
> {
    let left = is_identity(e.left, target);
    let right = is_identity(e.right, target);
    if left && right {
        seq![keep_right(e), keep_left(e)]
    } else if left {
        seq![keep_right(e)]
    } else if right {
        seq![keep_left(e)]
    } else {
        Seq::empty()
    }
}

/// What is reported where an operator is checked on the right only: one
/// diagnostic that suggests the left operand if the right one is the identity
/// value, whatever the left operand is.
pub open spec fn right_side(e: BinaryExpressionView, target: IdentityTarget) -> Seq<
    DiagnosticView,
> {
    if is_identity(e.right, target) {
        seq![keep_left(e)]
    } else {
        Seq::empty()
    }
}

/// Zero is the identity of `+`, `|` and `^` on either side: `x + 0` and
/// `0 + x` each give exactly one diagnostic, which suggests `x`, unless `x` is
/// itself known to be zero. Then both sides match and there are two
/// diagnostics, one for each side.
pub proof fn lemma_zero_on_either_side(e: BinaryExpressionView)
    requires
        !e.span.generated,
        e.op == BinOpKind::Add || e.op == BinOpKind::BitOr || e.op == BinOpKind::BitXor,
    ensures
        diagnostics_of(e) == both_sides(e, IdentityTarget::Zero),
        e.right.constant == Some(0int) && e.left.constant != Some(0int) ==> diagnostics_of(e)
            == seq![keep_left(e)],
        e.left.constant == Some(0int) && e.right.constant != Some(0int) ==> diagnostics_of(e)
            == seq![keep_right(e)],
        e.left.constant == Some(0int) && e.right.constant == Some(0int) ==> diagnostics_of(e)
            == seq![keep_right(e), keep_left(e)],
{
    assert(diagnostics_of(e) =~= both_sides(e, IdentityTarget::Zero));
}

/// Zero is the identity of `-`, `<<` and `>>` on the right only: `x - 0` gives
/// exactly one diagnostic, which suggests `x`; where the right operand is not
/// known to be zero nothing is reported, whatever stands on the left.
pub proof fn lemma_zero_on_the_right(e: BinaryExpressionView)
    requires
        !e.span.generated,
        e.op == BinOpKind::Sub || e.op == BinOpKind::Shl || e.op == BinOpKind::Shr,
    ensures
        diagnostics_of(e) == right_side(e, IdentityTarget::Zero),
        e.right.constant == Some(0int) ==> diagnostics_of(e) == seq![keep_left(e)],
        e.right.constant != Some(0int) ==> diagnostics_of(e) == Seq::<DiagnosticView>::empty(),
{
    assert(diagnostics_of(e) =~= right_side(e, IdentityTarget::Zero));
}

/// One is the identity of `*` on either side: `x * 1` and `1 * x` each give
/// exactly one diagnostic, which suggests `x`, unless `x` is itself known to
/// be one.
pub proof fn lemma_one_on_either_side(e: BinaryExpressionView)
    requires
        !e.span.generated,
        e.op == BinOpKind::Mul,
    ensures
        diagnostics_of(e) == both_sides(e, IdentityTarget::One),
        e.right.constant == Some(1int) && e.left.constant != Some(1int) ==> diagnostics_of(e)
            == seq![keep_left(e)],
        e.left.constant == Some(1int) && e.right.constant != Some(1int) ==> diagnostics_of(e)
            == seq![keep_right(e)],
        e.left.constant == Some(1int) && e.right.constant == Some(1int) ==> diagnostics_of(e)
            == seq![keep_right(e), keep_left(e)],
{
    assert(diagnostics_of(e) =~= both_sides(e, IdentityTarget::One));
}

/// One is the identity of `/` on the right only: `x / 1` gives exactly one
/// diagnostic, which suggests `x`; where the right operand is not known to be
/// one nothing is reported, whatever stands on the left.
pub proof fn lemma_one_on_the_right(e: BinaryExpressionView)
    requires
        !e.span.generated,
        e.op == BinOpKind::Div,
    ensures
        diagnostics_of(e) == right_side(e, IdentityTarget::One),
        e.right.constant == Some(1int) ==> diagnostics_of(e) == seq![keep_left(e)],
        e.right.constant != Some(1int) ==> diagnostics_of(e) == Seq::<DiagnosticView>::empty(),
{
    assert(diagnostics_of(e) =~= right_side(e, IdentityTarget::One));
}

/// The value with every bit set is the identity of `&` on either side, and it
/// is taken in the type of the operand that holds it: `x & c` gives a
/// diagnostic that suggests `x` exactly if `c` is known, has a known type and
/// is the all-ones value of that type.
pub proof fn lemma_all_ones_on_either_side(e: BinaryExpressionView)
    requires
        !e.span.generated,
        e.op == BinOpKind::BitAnd,
    ensures
        diagnostics_of(e) == both_sides(e, IdentityTarget::AllOnes),
        is_identity(e.right, IdentityTarget::AllOnes) <==> (e.right.constant is Some
            && e.right.ty is Some && e.right.constant->0 == all_ones_value(e.right.ty->0)),
        is_identity(e.left, IdentityTarget::AllOnes) <==> (e.left.constant is Some
            && e.left.ty is Some && e.left.constant->0 == all_ones_value(e.left.ty->0)),
{
    assert(diagnostics_of(e) =~= both_sides(e, IdentityTarget::AllOnes));
}

/// The expression with its two operands exchanged.
pub open spec fn exchanged(e: BinaryExpressionView) -> BinaryExpressionView {
    BinaryExpressionView { op: e.op, left: e.right, right: e.left, span: e.span }
}

/// The operators that are checked on both sides are checked alike on both:
/// with the operands exchanged the same diagnostics come out, in the opposite
/// order.
pub proof fn lemma_both_sides_are_checked_alike(e: BinaryExpressionView)
    requires
        rule_of(e.op) matches Some(rule) && rule.sides == Sides::Both,
    ensures
        diagnostics_of(exchanged(e)) == diagnostics_of(e).reverse(),
{
    assert(diagnostics_of(exchanged(e)) =~= diagnostics_of(e).reverse());
}

/// The operators outside the table of identity rules are never reported.
pub proof fn lemma_other_operators(e: BinaryExpressionView)
    requires
        rule_of(e.op) is None,
    ensures
        diagnostics_of(e) == Seq::<DiagnosticView>::empty(),
{
    assert(diagnostics_of(e) =~= Seq::<DiagnosticView>::empty());
}

/// An expression that automatic expansion produced is never reported,
/// whatever its operator and operands.
pub proof fn lemma_generated_code_is_silent(e: BinaryExpressionView)
    requires
        e.span.generated,
    ensures
        diagnostics_of(e) == Seq::<DiagnosticView>::empty(),
{
}

/// An operand that does not fold to a constant gives no diagnostic for its
/// side: what is reported is what the other side alone gives.
pub proof fn lemma_unknown_operand_is_silent(e: BinaryExpressionView)
    requires
        !e.span.generated,
    ensures
        e.left.constant is None ==> diagnostics_of(e) == right_diagnostics(e),
        e.right.constant is None ==> diagnostics_of(e) == left_diagnostics(e),
        e.left.constant is None && e.right.constant is None ==> diagnostics_of(e) == Seq::<
            DiagnosticView,
        >::empty(),
{
    if e.left.constant is None {
        assert(diagnostics_of(e) =~= right_diagnostics(e));
    }
    if e.right.constant is None {
        assert(diagnostics_of(e) =~= left_diagnostics(e));
    }
}

/// There is at most one diagnostic for each operand, so at most two in all.
/// Each carries the one lint of this library, covers the whole expression and
/// suggests one of the two operands.
pub proof fn lemma_shape_of_diagnostics(e: BinaryExpressionView, i: int)
    requires
        0 <= i < diagnostics_of(e).len(),
    ensures
        diagnostics_of(e).len() <= 2,
        diagnostics_of(e)[i].lint == identity_op_lint(),
        diagnostics_of(e)[i].span == e.span,
        diagnostics_of(e)[i].message == message_for(e.left.snippet) || diagnostics_of(e)[i].message
            == message_for(e.right.snippet),
{
}

/// Detection keeps no state: whatever two runs over the same expression
/// report is the same.
pub proof fn lemma_detection_is_repeatable(
    e: BinaryExpressionView,
    first: Seq<DiagnosticView>,
    second: Seq<DiagnosticView>,
)
    requires
        first == diagnostics_of(e),
        second == diagnostics_of(e),
    ensures
        first == second,
{
}

/// The all-ones value is what the pattern of `width` one-bits stands for in
/// the type, and no other pattern of that many bits stands for it.
pub proof fn lemma_all_ones_is_the_full_pattern(ty: IntegerTypeInfo, pattern: nat)
    requires
        pattern < pow2(ty.width as nat),
    ensures
        pattern_value(ty, (pow2(ty.width as nat) - 1) as nat) == all_ones_value(ty),
        pattern_value(ty, pattern) == all_ones_value(ty) <==> pattern == pow2(ty.width as nat) - 1,
{
    lemma2_to64();
    lemma_pow2_pos(ty.width as nat);
    if ty.width > 0 {
        lemma_pow2_unfold(ty.width as nat);
        lemma_pow2_pos((ty.width - 1) as nat);
    }
}

/// The all-ones value of an unsigned type depends on the width: two unsigned
/// types of different widths never share it, so it cannot be a fixed literal.
pub proof fn lemma_all_ones_tells_widths_apart(a: IntegerTypeInfo, b: IntegerTypeInfo)
    requires
        !a.signed,
        !b.signed,
        a.width != b.width,
    ensures
        all_ones_value(a) != all_ones_value(b),
{
    lemma2_to64();
    if a.width < b.width {
        lemma_pow2_strictly_increases(a.width as nat, b.width as nat);
    } else {
        lemma_pow2_strictly_increases(b.width as nat, a.width as nat);
    }
}

/// The all-ones values of the integer types of the usual widths.
pub proof fn lemma_all_ones_of_usual_types()
    ensures
        forall|width: u32| width > 0 ==> #[trigger] all_ones_value(
            IntegerTypeInfo { signed: true, width },
        ) == -1,
        all_ones_value(IntegerTypeInfo { signed: false, width: 8 }) == 0xff,
        all_ones_value(IntegerTypeInfo { signed: false, width: 16 }) == 0xffff,
        all_ones_value(IntegerTypeInfo { signed: false, width: 32 }) == 0xffff_ffff,
        all_ones_value(IntegerTypeInfo { signed: false, width: 64 }) == 0xffff_ffff_ffff_ffff,
        all_ones_value(IntegerTypeInfo { signed: false, width: 128 }) == u128::MAX,
{
    lemma2_to64();
    lemma_pow2_128();
}

} // verus!
