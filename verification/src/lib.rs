//! Detection of integer operations that have no effect because one operand is
//! the identity element of the operator: `x + 0`, `x * 1`, `x & -1`, `x << 0`.
//!
//! The host that walks a program hands each binary expression to
//! [`IdentityOp::check_expr`] as plain values: what each operand folds to, its
//! integer type, its source text and whether the expression was written by
//! hand. The answer is the list of diagnostics to report.

pub mod constant;
pub mod detector;
pub mod diagnostic;
pub mod expr;
pub mod int_type;
pub mod lemmas;
pub mod operator;

pub use crate::constant::IntegerConstant;
pub use crate::detector::{check, IdentityOp};
pub use crate::diagnostic::{Diagnostic, Lint, LintCategory};
pub use crate::expr::{BinaryExpression, Operand, Span};
pub use crate::int_type::IntegerTypeInfo;
pub use crate::operator::{BinOpKind, IdentityRule, IdentityTarget, Sides};
