//! The failures this library reports. They are returned, never printed.

use vstd::prelude::*;

verus! {

/// Why a tree or a duration could not be produced.
#[derive(Debug, Clone, PartialEq, Eq)]
pub enum Error {
    /// The parser rejected the query text; the message is the parser's own.
    Syntax(String),
    /// The checker rejected a well-formed tree; the message is the checker's own.
    Semantic(String),
    /// A duration lies outside the range of a signed duration.
    Overflow,
    /// The tree holds a node kind outside the closed set of expressions.
    UnsupportedConstruct,
}

/// What a [`Error`] holds, as mathematical values.
pub enum ErrorView {
    Syntax(Seq<char>),
    Semantic(Seq<char>),
    Overflow,
    UnsupportedConstruct,
}

impl View for Error {
    type V = ErrorView;

    open spec fn view(&self) -> ErrorView {
        match self {
            Error::Syntax(msg) => ErrorView::Syntax(msg@),
            Error::Semantic(msg) => ErrorView::Semantic(msg@),
            Error::Overflow => ErrorView::Overflow,
            Error::UnsupportedConstruct => ErrorView::UnsupportedConstruct,
        }
    }
}

} // verus!
