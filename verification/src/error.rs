//! The errors of the two stages.

use crate::text::concat;
use vstd::prelude::*;
use vstd::string::*;

verus! {

/// Why normalization failed.
#[derive(Debug, Clone)]
pub enum NormalizationError {
    /// The syntax tree did not yield what was needed.
    AstExtraction(String),
    /// The program's structure is not valid.
    Validation(String),
    /// Inference failed.
    Inference(String),
    /// Something that normalization needs is not there.
    MissingInfo(String),
    /// Anything else.
    Other(String),
}

/// The view of `NormalizationError`: what it holds, as sequences of characters.
pub enum NormalizationErrorView {
    AstExtraction(Seq<char>),
    Validation(Seq<char>),
    Inference(Seq<char>),
    MissingInfo(Seq<char>),
    Other(Seq<char>),
}

impl NormalizationErrorView {
    /// The error in words.
    pub open spec fn message(self) -> Seq<char> {
        match self {
            NormalizationErrorView::AstExtraction(m) => "AST extraction error: "@ + m,
            NormalizationErrorView::Validation(m) => "Validation error: "@ + m,
            NormalizationErrorView::Inference(m) => "Inference error: "@ + m,
            NormalizationErrorView::MissingInfo(m) => "Missing information: "@ + m,
            NormalizationErrorView::Other(m) => "Normalization error: "@ + m,
        }
    }
}

impl View for NormalizationError {
    type V = NormalizationErrorView;

    open spec fn view(&self) -> NormalizationErrorView {
        match self {
            NormalizationError::AstExtraction(m) => NormalizationErrorView::AstExtraction(m@),
            NormalizationError::Validation(m) => NormalizationErrorView::Validation(m@),
            NormalizationError::Inference(m) => NormalizationErrorView::Inference(m@),
            NormalizationError::MissingInfo(m) => NormalizationErrorView::MissingInfo(m@),
            NormalizationError::Other(m) => NormalizationErrorView::Other(m@),
        }
    }
}

impl NormalizationError {
    /// The error in words: what kind it is of, and its own message.
    pub fn message(&self) -> (r: String)
        ensures
            r@ == self@.message(),
    {
        match self {
            NormalizationError::AstExtraction(m) => concat("AST extraction error: ", m.as_str()),
            NormalizationError::Validation(m) => concat("Validation error: ", m.as_str()),
            NormalizationError::Inference(m) => concat("Inference error: ", m.as_str()),
            NormalizationError::MissingInfo(m) => concat("Missing information: ", m.as_str()),
            NormalizationError::Other(m) => concat("Normalization error: ", m.as_str()),
        }
    }
}

/// Why a program could not be read.
#[derive(Debug, Clone)]
pub enum ParseError {
    /// The source could not be read; the payload says why.
    Io(String),
    /// The source is no valid syntax; the payload says why.
    Syntax(String),
    /// The syntax tree holds something that the model cannot take.
    Parse(String),
}

/// The view of `ParseError`: what it holds, as sequences of characters.
pub enum ParseErrorView {
    Io(Seq<char>),
    Syntax(Seq<char>),
    Parse(Seq<char>),
}

impl ParseErrorView {
    /// The error in words.
    pub open spec fn message(self) -> Seq<char> {
        match self {
            ParseErrorView::Io(m) => "I/O error: "@ + m,
            ParseErrorView::Syntax(m) => "Syntax error: "@ + m,
            ParseErrorView::Parse(m) => "Parse error: "@ + m,
        }
    }
}

impl View for ParseError {
    type V = ParseErrorView;

    open spec fn view(&self) -> ParseErrorView {
        match self {
            ParseError::Io(m) => ParseErrorView::Io(m@),
            ParseError::Syntax(m) => ParseErrorView::Syntax(m@),
            ParseError::Parse(m) => ParseErrorView::Parse(m@),
        }
    }
}

impl ParseError {
    /// The error in words: what kind it is of, and its own message.
    pub fn message(&self) -> (r: String)
        ensures
            r@ == self@.message(),
    {
        match self {
            ParseError::Io(m) => concat("I/O error: ", m.as_str()),
            ParseError::Syntax(m) => concat("Syntax error: ", m.as_str()),
            ParseError::Parse(m) => concat("Parse error: ", m.as_str()),
        }
    }
}

} // verus!
