//! The error taxonomy: one tag per distinguishable failure cause, each
//! carrying a context key so that merged errors stay attributable.

use vstd::prelude::*;

verus! {

/// A single probe failure. Every variant carries a context string that
/// identifies which probe or field produced it.
#[derive(Debug, Clone, PartialEq, Eq)]
pub enum Error {
    /// A required external resource or file is absent.
    NotFound(String),
    /// An underlying I/O operation failed; carries the system error's text.
    IoFailure(String),
    /// Parsed data did not match the expected shape (e.g. "not a JSON object").
    MalformedStructure(String),
    /// A serialization-library failure; carries the library error's text.
    EncodingFailure(String),
}

/// Mathematical model of an `Error`: the same tags over character sequences.
pub enum ErrorModel {
    NotFound(Seq<char>),
    IoFailure(Seq<char>),
    MalformedStructure(Seq<char>),
    EncodingFailure(Seq<char>),
}

impl View for Error {
    type V = ErrorModel;

    open spec fn view(&self) -> ErrorModel {
        match self {
            Error::NotFound(k) => ErrorModel::NotFound(k@),
            Error::IoFailure(k) => ErrorModel::IoFailure(k@),
            Error::MalformedStructure(k) => ErrorModel::MalformedStructure(k@),
            Error::EncodingFailure(k) => ErrorModel::EncodingFailure(k@),
        }
    }
}

/// The human-readable message of an error, as a sequence of characters.
pub open spec fn message_of(e: ErrorModel) -> Seq<char> {
    match e {
        ErrorModel::NotFound(k) => "not found: "@ + k,
        ErrorModel::IoFailure(k) => "i/o failure: "@ + k,
        ErrorModel::MalformedStructure(k) => "not a JSON object: "@ + k,
        ErrorModel::EncodingFailure(k) => "encoding failure: "@ + k,
    }
}

impl Error {
    /// The human-readable message carried into the wire-level error body.
    pub fn message(&self) -> (r: String)
        ensures
            r@ == message_of(self@),
    {
        match self {
            Error::NotFound(k) => String::from_str("not found: ").concat(k.as_str()),
            Error::IoFailure(k) => String::from_str("i/o failure: ").concat(k.as_str()),
            Error::MalformedStructure(k) => String::from_str("not a JSON object: ").concat(
                k.as_str(),
            ),
            Error::EncodingFailure(k) => String::from_str("encoding failure: ").concat(k.as_str()),
        }
    }
}

} // verus!
