//! How a construction or a query can fail.

use vstd::prelude::*;

verus! {

/// A failure, with a diagnostic text. The text comes from the engine where
/// the engine reported the failure, and from this library where the library
/// decided on it.
#[derive(Debug)]
pub enum Error {
    /// No query could be built from the mesh data.
    CreateQueryError(String),
    /// A position could not be resolved to a polygon, or to a point on one.
    FindPointError(String),
    /// No corridor of polygons was found between two positions.
    FindPathError(String),
}

/// An `Error` with its text as a sequence of characters.
pub enum ErrorView {
    CreateQueryError(Seq<char>),
    FindPointError(Seq<char>),
    FindPathError(Seq<char>),
}

impl ErrorView {
    /// The diagnostic text.
    pub open spec fn message(self) -> Seq<char> {
        match self {
            ErrorView::CreateQueryError(text) => text,
            ErrorView::FindPointError(text) => text,
            ErrorView::FindPathError(text) => text,
        }
    }
}

impl View for Error {
    type V = ErrorView;

    open spec fn view(&self) -> ErrorView {
        match self {
            Error::CreateQueryError(text) => ErrorView::CreateQueryError(text@),
            Error::FindPointError(text) => ErrorView::FindPointError(text@),
            Error::FindPathError(text) => ErrorView::FindPathError(text@),
        }
    }
}

impl Error {
    /// A copy of the diagnostic text.
    pub fn message(&self) -> (text: String)
        ensures
            text@ == self@.message(),
    {
        match self {
            Error::CreateQueryError(text) => text.clone(),
            Error::FindPointError(text) => text.clone(),
            Error::FindPathError(text) => text.clone(),
        }
    }
}

} // verus!
