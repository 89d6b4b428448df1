//! What is reported for an ineffective operation.

use vstd::prelude::*;
use vstd::string::StringExecFns;

use crate::expr::Span;

verus! {

/// The group that a lint is filed under.
#[derive(Clone, Copy, Debug, PartialEq, Eq, Structural)]
pub enum LintCategory {
    Complexity,
}

/// A lint that a pass can report.
#[derive(Clone, Copy, Debug)]
pub struct Lint {
    pub name: &'static str,
    pub category: LintCategory,
    pub description: &'static str,
}

/// A [`Lint`] in specifications.
pub struct LintView {
    pub name: Seq<char>,
    pub category: LintCategory,
    pub description: Seq<char>,
}

impl View for Lint {
    type V = LintView;

    open spec fn view(&self) -> LintView {
        LintView {
            name: self.name@,
            category: self.category,
            description: self.description@,
        }
    }
}

/// The one lint of this library.
pub open spec fn identity_op_lint() -> LintView {
    LintView {
        name: "identity_op"@,
        category: LintCategory::Complexity,
        description: "using identity operations, e.g. `x + 0` or `y / 1`"@,
    }
}

/// The lint under which every diagnostic of this library is reported.
pub fn identity_op() -> (lint: Lint)
    ensures
        lint@ == identity_op_lint(),
{
    Lint {
        name: "identity_op",
        category: LintCategory::Complexity,
        description: "using identity operations, e.g. `x + 0` or `y / 1`",
    }
}

/// One finding: the lint, the range of the whole expression, and the message.
#[derive(Clone, Debug)]
pub struct Diagnostic {
    pub lint: Lint,
    pub span: Span,
    pub message: String,
}

/// A [`Diagnostic`] in specifications.
pub struct DiagnosticView {
    pub lint: LintView,
    pub span: Span,
    pub message: Seq<char>,
}

impl View for Diagnostic {
    type V = DiagnosticView;

    open spec fn view(&self) -> DiagnosticView {
        DiagnosticView { lint: self.lint@, span: self.span, message: self.message@ }
    }
}

impl DeepView for Diagnostic {
    type V = DiagnosticView;

    open spec fn deep_view(&self) -> DiagnosticView {
        self@
    }
}

/// The text that stands for an operand whose source cannot be recovered.
pub open spec fn placeholder() -> Seq<char> {
    ".."@
}

/// The message that suggests `snippet` in place of the whole expression.
pub open spec fn message_for(snippet: Option<Seq<char>>) -> Seq<char> {
    "the operation is ineffective. Consider reducing it to `"@ + match snippet {
        Some(text) => text,
        None => placeholder(),
    } + "`"@
}

/// The diagnostic for an identity operation over `span` whose other operand
/// reads `snippet`.
pub open spec fn diagnostic_for(span: Span, snippet: Option<Seq<char>>) -> DiagnosticView {
    DiagnosticView { lint: identity_op_lint(), span: span, message: message_for(snippet) }
}

/// Builds the message that suggests `snippet`, or the placeholder where there
/// is none.
pub fn message(snippet: &Option<String>) -> (text: String)
    ensures
        text@ == message_for(
            match *snippet {
                Some(s) => Some(s@),
                None => None,
            },
        ),
{
    let mut text = String::from_str("the operation is ineffective. Consider reducing it to `");
    match snippet {
        Some(s) => text.append(s.as_str()),
        None => text.append(".."),
    }
    text.append("`");
    text
}

impl Diagnostic {
    /// The diagnostic for an identity operation over `span` whose other operand
    /// reads `snippet`.
    pub fn new(span: Span, snippet: &Option<String>) -> (d: Diagnostic)
        ensures
            d@ == diagnostic_for(
                span,
                match *snippet {
                    Some(s) => Some(s@),
                    None => None,
                },
            ),
    {
        Diagnostic { lint: identity_op(), span: span, message: message(snippet) }
    }
}

} // verus!
