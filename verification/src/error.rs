//! The diagnostics that parsing can end in.

use vstd::prelude::*;
use crate::syntax::Span;

verus! {

/// The classes of failure.
#[derive(Clone, Copy, Debug, PartialEq, Eq, Structural)]
pub enum ErrorKind {
    /// The tree has the wrong shape: no list, no record, a record of
    /// another type, a positional field.
    Structure,
    /// A field name occurs a second time in one record.
    DuplicateField,
    /// A field name that no rule knows.
    UnknownField,
    /// `path` or `method` is absent from a record.
    MissingRequiredField,
    /// A path that is too short or lacks its leading or trailing `/`.
    PathFormat,
    /// A method that is not one of the standard tokens.
    InvalidMethod,
}

/// Why a single field value was turned down.
#[derive(Debug)]
pub struct FieldError {
    pub kind: ErrorKind,
    pub message: String,
}

/// The mathematical value of a [`FieldError`].
pub struct FieldErrorView {
    pub kind: ErrorKind,
    pub message: Seq<char>,
}

impl View for FieldError {
    type V = FieldErrorView;

    open spec fn view(&self) -> FieldErrorView {
        FieldErrorView { kind: self.kind, message: self.message@ }
    }
}

/// The one diagnostic that a failed parse returns.
#[derive(Debug)]
pub struct ParseError {
    pub kind: ErrorKind,
    /// The field the diagnostic is about, where it is about one.
    pub field: Option<String>,
    /// The text to show.
    pub message: String,
    /// The place of the offending node.
    pub span: Span,
}

/// The mathematical value of a [`ParseError`].
pub struct ParseErrorView {
    pub kind: ErrorKind,
    pub field: Option<Seq<char>>,
    pub message: Seq<char>,
    pub span: Span,
}

impl View for ParseError {
    type V = ParseErrorView;

    open spec fn view(&self) -> ParseErrorView {
        ParseErrorView {
            kind: self.kind,
            field: match self.field {
                Some(name) => Some(name@),
                None => None,
            },
            message: self.message@,
            span: self.span,
        }
    }
}

} // verus!
