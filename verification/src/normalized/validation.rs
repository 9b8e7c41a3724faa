//! Issues that validation records. None of them stops normalization.

use crate::text::IntoText;
use vstd::prelude::*;

verus! {

/// How serious an issue is.
#[derive(Debug, Clone, Copy, PartialEq, Eq, Structural)]
pub enum IssueSeverity {
    /// A note; no defect.
    Info,
    /// A defect that does not stand in the way of later stages.
    Warning,
    /// A defect that may make later stages go wrong.
    Error,
}

/// An issue found in a normalized program.
#[derive(Debug, Clone)]
pub struct ValidationIssue {
    pub severity: IssueSeverity,
    /// The issue, in words.
    pub message: String,
    /// The name of what the issue is about; `Struct.field` for a field.
    pub element: String,
}

/// The view of `ValidationIssue`: what it holds, as sequences of characters.
pub struct ValidationIssueView {
    pub severity: IssueSeverity,
    pub message: Seq<char>,
    pub element: Seq<char>,
}

impl View for ValidationIssue {
    type V = ValidationIssueView;

    open spec fn view(&self) -> ValidationIssueView {
        ValidationIssueView {
            severity: self.severity,
            message: self.message@,
            element: self.element@,
        }
    }
}

impl ValidationIssue {
    /// An issue of the given severity.
    pub fn new(severity: IssueSeverity, message: impl IntoText, element: impl IntoText) -> (r:
        Self)
        ensures
            r@ == (ValidationIssueView {
                severity,
                message: message.text(),
                element: element.text(),
            }),
    {
        ValidationIssue { severity, message: message.into_text(), element: element.into_text() }
    }

    /// An issue of severity `Info`.
    pub fn info(message: impl IntoText, element: impl IntoText) -> (r: Self)
        ensures
            r@ == (ValidationIssueView {
                severity: IssueSeverity::Info,
                message: message.text(),
                element: element.text(),
            }),
    {
        ValidationIssue::new(IssueSeverity::Info, message, element)
    }

    /// An issue of severity `Warning`.
    pub fn warning(message: impl IntoText, element: impl IntoText) -> (r: Self)
        ensures
            r@ == (ValidationIssueView {
                severity: IssueSeverity::Warning,
                message: message.text(),
                element: element.text(),
            }),
    {
        ValidationIssue::new(IssueSeverity::Warning, message, element)
    }

    /// An issue of severity `Error`.
    pub fn error(message: impl IntoText, element: impl IntoText) -> (r: Self)
        ensures
            r@ == (ValidationIssueView {
                severity: IssueSeverity::Error,
                message: message.text(),
                element: element.text(),
            }),
    {
        ValidationIssue::new(IssueSeverity::Error, message, element)
    }
}

} // verus!
