//! The ways in which loading a feature collection fails.

use vstd::prelude::*;

verus! {

/// Why a text is no feature collection.
#[derive(Debug, Clone, Copy, PartialEq, Eq)]
pub enum ParseError {
    /// The text is not well-formed JSON.
    InvalidJson,
    /// The text is JSON, but not of the shape of a feature collection: a
    /// required member is missing, a value has the wrong type, or a
    /// coordinate is not a pair.
    ShapeMismatch,
}

/// Why the contents of a file are no feature collection.
#[derive(Debug)]
pub enum LoadError {
    /// The file could not be opened or read to its end.
    Io(std::io::Error),
    /// The file was read, and what it holds is no feature collection.
    Parse(ParseError),
}

/// `std::io::Error`, opaque here: it is handed on as it came.
#[verifier::external_type_specification]
#[verifier::external_body]
pub struct ExIoError(std::io::Error);

/// What stands for the result of decoding when a value has no decoding.
pub open spec fn shaped<T>(decoded: Option<T>) -> Result<T, ParseError> {
    match decoded {
        Some(record) => Ok(record),
        None => Err(ParseError::ShapeMismatch),
    }
}

} // verus!
