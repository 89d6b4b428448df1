use identity_op::detector::matches_target;
use identity_op::{
    check, BinOpKind, BinaryExpression, Diagnostic, IdentityOp, IdentityTarget, IntegerConstant,
    IntegerTypeInfo, Operand, Span,
};

const I32: IntegerTypeInfo = IntegerTypeInfo { signed: true, width: 32 };

fn span(lo: u32, hi: u32) -> Span {
    Span { lo, hi, generated: false }
}

/// An operand named `text` whose value is not statically known.
fn variable(text: &str, lo: u32) -> Operand {
    Operand {
        span: span(lo, lo + text.len() as u32),
        constant: None,
        ty: Some(I32),
        snippet: Some(text.to_string()),
    }
}

/// A literal of type `i32`.
fn literal(value: i128, lo: u32) -> Operand {
    let text = value.to_string();
    Operand {
        span: span(lo, lo + text.len() as u32),
        constant: Some(IntegerConstant::from_i128(value)),
        ty: Some(I32),
        snippet: Some(text),
    }
}

fn binary(op: BinOpKind, left: Operand, right: Operand) -> BinaryExpression {
    let whole = span(left.span.lo, right.span.hi);
    BinaryExpression { op, left, right, span: whole }
}

fn run(e: &BinaryExpression) -> Vec<Diagnostic> {
    IdentityOp.check_expr(e)
}

fn suggestion(text: &str) -> String {
    format!("the operation is ineffective. Consider reducing it to `{}`", text)
}

/// The messages that are reported for `left op right`.
fn messages(op: BinOpKind, left: Operand, right: Operand) -> Vec<String> {
    let e = binary(op, left, right);
    let found = run(&e);
    for d in &found {
        assert_eq!(d.span, e.span);
        assert_eq!(d.lint.name, "identity_op");
    }
    found.into_iter().map(|d| d.message).collect()
}

const ALL_OPERATORS: [BinOpKind; 18] = [
    BinOpKind::Add,
    BinOpKind::Sub,
    BinOpKind::Mul,
    BinOpKind::Div,
    BinOpKind::Rem,
    BinOpKind::And,
    BinOpKind::Or,
    BinOpKind::BitXor,
    BinOpKind::BitAnd,
    BinOpKind::BitOr,
    BinOpKind::Shl,
    BinOpKind::Shr,
    BinOpKind::Eq,
    BinOpKind::Lt,
    BinOpKind::Le,
    BinOpKind::Ne,
    BinOpKind::Ge,
    BinOpKind::Gt,
];

#[test]
fn zero_on_the_right_of_add_suggests_the_left_operand() {
    let e = binary(BinOpKind::Add, variable("x", 0), literal(0, 4));
    let found = run(&e);
    assert_eq!(found.len(), 1);
    assert_eq!(found[0].message, suggestion("x"));
    assert_eq!(found[0].span, e.span);
    assert_eq!(found[0].span, Span { lo: 0, hi: 5, generated: false });
}

#[test]
fn zero_on_the_left_of_add_suggests_the_right_operand() {
    assert_eq!(messages(BinOpKind::Add, literal(0, 0), variable("x", 4)), vec![suggestion("x")]);
}

#[test]
fn zero_is_the_identity_of_bit_or_on_both_sides() {
    assert_eq!(messages(BinOpKind::BitOr, variable("x", 0), literal(0, 4)), vec![suggestion("x")]);
    assert_eq!(messages(BinOpKind::BitOr, literal(0, 0), variable("x", 4)), vec![suggestion("x")]);
}

#[test]
fn zero_is_the_identity_of_bit_xor_on_both_sides() {
    assert_eq!(messages(BinOpKind::BitXor, variable("x", 0), literal(0, 4)), vec![suggestion("x")]);
    assert_eq!(messages(BinOpKind::BitXor, literal(0, 0), variable("x", 4)), vec![suggestion("x")]);
}

#[test]
fn a_constant_beside_zero_is_suggested_by_its_text() {
    for op in [BinOpKind::Add, BinOpKind::BitOr, BinOpKind::BitXor] {
        for x in [-7i128, 1, 2, 255, i32::MAX as i128, i32::MIN as i128] {
            let text = x.to_string();
            assert_eq!(messages(op, literal(x, 0), literal(0, 20)), vec![suggestion(&text)]);
            assert_eq!(messages(op, literal(0, 0), literal(x, 4)), vec![suggestion(&text)]);
        }
    }
}

#[test]
fn subtracting_zero_is_reported_and_subtracting_from_zero_is_not() {
    assert_eq!(messages(BinOpKind::Sub, variable("x", 0), literal(0, 4)), vec![suggestion("x")]);
    assert!(messages(BinOpKind::Sub, literal(0, 0), variable("x", 4)).is_empty());
    assert!(messages(BinOpKind::Sub, literal(0, 0), literal(5, 4)).is_empty());
}

#[test]
fn zero_minus_zero_is_reported_once_for_the_right_side() {
    assert_eq!(messages(BinOpKind::Sub, literal(0, 0), literal(0, 4)), vec![suggestion("0")]);
}

#[test]
fn one_is_the_identity_of_mul_on_both_sides() {
    assert_eq!(messages(BinOpKind::Mul, variable("x", 0), literal(1, 4)), vec![suggestion("x")]);
    assert_eq!(messages(BinOpKind::Mul, literal(1, 0), variable("x", 4)), vec![suggestion("x")]);
    assert!(messages(BinOpKind::Mul, variable("x", 0), literal(0, 4)).is_empty());
    assert!(messages(BinOpKind::Mul, variable("x", 0), literal(-1, 4)).is_empty());
}

#[test]
fn dividing_by_one_is_reported_and_dividing_one_is_not() {
    assert_eq!(messages(BinOpKind::Div, variable("x", 0), literal(1, 4)), vec![suggestion("x")]);
    assert!(messages(BinOpKind::Div, literal(1, 0), variable("x", 4)).is_empty());
    assert!(messages(BinOpKind::Div, variable("x", 0), literal(0, 4)).is_empty());
}

#[test]
fn shifting_by_zero_is_reported_and_shifting_zero_is_not() {
    assert_eq!(messages(BinOpKind::Shl, variable("x", 0), literal(0, 5)), vec![suggestion("x")]);
    assert_eq!(messages(BinOpKind::Shr, variable("x", 0), literal(0, 5)), vec![suggestion("x")]);
    assert!(messages(BinOpKind::Shl, literal(0, 0), variable("x", 5)).is_empty());
    assert!(messages(BinOpKind::Shr, literal(0, 0), variable("x", 5)).is_empty());
}

#[test]
fn zero_or_zero_is_reported_twice() {
    let e = binary(BinOpKind::BitOr, literal(0, 0), literal(0, 4));
    let found = run(&e);
    assert_eq!(found.len(), 2);
    assert_eq!(found[0].message, suggestion("0"));
    assert_eq!(found[1].message, suggestion("0"));
    assert_eq!(found[0].span, e.span);
    assert_eq!(found[1].span, e.span);
}

#[test]
fn with_both_sides_matching_the_left_side_is_reported_first() {
    let mut left = literal(1, 0);
    left.snippet = Some("ONE".to_string());
    let mut right = literal(1, 6);
    right.snippet = Some("1u8".to_string());
    assert_eq!(
        messages(BinOpKind::Mul, left, right),
        vec![suggestion("1u8"), suggestion("ONE")]
    );
}

#[test]
fn generated_code_is_never_reported() {
    for op in ALL_OPERATORS {
        for (l, r) in [(0, 0), (1, 1), (-1, -1), (5, 0), (0, 5), (5, 1), (1, 5)] {
            let mut e = binary(op, literal(l, 0), literal(r, 4));
            e.span.generated = true;
            assert!(run(&e).is_empty());
        }
    }
}

#[test]
fn only_the_span_of_the_whole_expression_decides_on_generated_code() {
    let mut e = binary(BinOpKind::Add, variable("x", 0), literal(0, 4));
    e.left.span.generated = true;
    e.right.span.generated = true;
    assert_eq!(run(&e).len(), 1);
}

#[test]
fn an_operand_that_does_not_fold_is_never_reported() {
    for op in ALL_OPERATORS {
        let e = binary(op, variable("f()", 0), variable("g()", 6));
        assert!(run(&e).is_empty());
    }
}

#[test]
fn an_unknown_side_leaves_the_other_side_as_it_is() {
    assert_eq!(
        messages(BinOpKind::Add, variable("zero()", 0), literal(0, 9)),
        vec![suggestion("zero()")]
    );
    assert!(messages(BinOpKind::Add, variable("zero()", 0), literal(3, 9)).is_empty());
}

#[test]
fn operators_without_an_identity_rule_are_never_reported() {
    for op in [
        BinOpKind::Rem,
        BinOpKind::And,
        BinOpKind::Or,
        BinOpKind::Eq,
        BinOpKind::Lt,
        BinOpKind::Le,
        BinOpKind::Ne,
        BinOpKind::Ge,
        BinOpKind::Gt,
    ] {
        for (l, r) in [(0, 0), (1, 1), (-1, -1), (5, 0), (0, 5), (5, 1), (1, 5)] {
            assert!(messages(op, literal(l, 0), literal(r, 4)).is_empty());
        }
    }
}

#[test]
fn detection_twice_gives_the_same_diagnostics() {
    for op in ALL_OPERATORS {
        for (l, r) in [(0, 0), (1, 1), (-1, -1), (5, 0), (0, 5), (5, 1), (1, 5)] {
            let e = binary(op, literal(l, 0), literal(r, 4));
            let pass = IdentityOp;
            let first = pass.check_expr(&e);
            let second = pass.check_expr(&e);
            assert_eq!(first.len(), second.len());
            for (a, b) in first.iter().zip(second.iter()) {
                assert_eq!(a.message, b.message);
                assert_eq!(a.span, b.span);
                assert_eq!(a.lint.name, b.lint.name);
            }
        }
    }
}

#[test]
fn zero_and_one_need_no_type() {
    let mut zero = literal(0, 4);
    zero.ty = None;
    assert_eq!(messages(BinOpKind::Add, variable("x", 0), zero), vec![suggestion("x")]);
    let mut one = literal(1, 4);
    one.ty = None;
    assert_eq!(messages(BinOpKind::Mul, variable("x", 0), one), vec![suggestion("x")]);
}

#[test]
fn a_missing_snippet_is_replaced_by_two_dots() {
    let mut x = variable("x", 0);
    x.snippet = None;
    assert_eq!(
        messages(BinOpKind::Add, x, literal(0, 4)),
        vec!["the operation is ineffective. Consider reducing it to `..`".to_string()]
    );
}

#[test]
fn negative_zero_is_zero() {
    let mut zero = literal(0, 4);
    zero.constant = Some(IntegerConstant { negative: true, magnitude: 0 });
    assert_eq!(messages(BinOpKind::Add, variable("x", 0), zero), vec![suggestion("x")]);
}

#[test]
fn check_reports_the_other_operand() {
    let whole = span(0, 5);
    let found = check(&literal(0, 4), IdentityTarget::Zero, whole, &variable("x", 0));
    let d = found.expect("zero is the identity");
    assert_eq!(d.message, suggestion("x"));
    assert_eq!(d.span, whole);
    assert!(check(&literal(0, 4), IdentityTarget::One, whole, &variable("x", 0)).is_none());
    assert!(check(&variable("y", 4), IdentityTarget::Zero, whole, &variable("x", 0)).is_none());
}

#[test]
fn matches_target_compares_with_the_identity_value() {
    let zero = IntegerConstant::from_u128(0);
    let one = IntegerConstant::from_u128(1);
    let minus_one = IntegerConstant::from_i128(-1);
    assert!(matches_target(&zero, &None, IdentityTarget::Zero));
    assert!(!matches_target(&one, &None, IdentityTarget::Zero));
    assert!(matches_target(&one, &None, IdentityTarget::One));
    assert!(!matches_target(&minus_one, &None, IdentityTarget::One));
    assert!(matches_target(&minus_one, &Some(I32), IdentityTarget::AllOnes));
    assert!(!matches_target(&minus_one, &None, IdentityTarget::AllOnes));
    assert!(!matches_target(&one, &Some(I32), IdentityTarget::AllOnes));
}

#[test]
fn exchanging_the_operands_of_a_commutative_operator_reverses_the_diagnostics() {
    for op in [BinOpKind::Add, BinOpKind::BitOr, BinOpKind::BitXor, BinOpKind::Mul, BinOpKind::BitAnd] {
        for (l, r) in [(0, 0), (1, 1), (-1, -1), (5, 0), (0, 5), (5, 1), (1, 5), (-1, 7), (7, -1)] {
            let mut forward = messages(op, literal(l, 0), literal(r, 4));
            let backward = messages(op, literal(r, 0), literal(l, 4));
            forward.reverse();
            assert_eq!(forward, backward);
        }
    }
}
