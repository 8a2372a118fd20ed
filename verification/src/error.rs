//! Error types.

use vstd::prelude::*;
use vstd::string::StringExecFns;

verus! {

/// The error returned when a response body cannot be decoded.
#[derive(Clone, Debug)]
pub enum DataError {
    /// The response is empty.
    EarlyEOF,
    /// The response is not in the expected format.
    SourceFormat(String),
}

/// The two ways in which decoding a response fails.
#[derive(Clone, Copy, Debug, PartialEq, Eq, Structural)]
pub enum Failure {
    /// Nothing is left of the body once white space is removed.
    EarlyEOF,
    /// The envelope of the body is not in the expected format.
    SourceFormat,
}

impl DataError {
    /// Which of the two failures the error reports.
    pub open spec fn kind(self) -> Failure {
        match self {
            DataError::EarlyEOF => Failure::EarlyEOF,
            DataError::SourceFormat(_) => Failure::SourceFormat,
        }
    }

    /// The text that describes the error.
    pub fn message(&self) -> (r: String)
        ensures
            self is EarlyEOF ==> r@ == "early EOF found"@,
            self matches DataError::SourceFormat(s) ==> r@ == "Source format error: "@ + s@,
    {
        match self {
            DataError::EarlyEOF => String::from_str("early EOF found"),
            DataError::SourceFormat(s) => String::from_str("Source format error: ").concat(
                s.as_str(),
            ),
        }
    }
}

/// The error returned when a text is no label of the probability of
/// significant rain.
#[derive(Clone, Copy, Debug)]
pub struct InvalidPSRError;

impl InvalidPSRError {
    /// The text that describes the error.
    pub fn message(&self) -> (r: String)
        ensures
            r@ == "PSR value is not valid"@,
    {
        String::from_str("PSR value is not valid")
    }
}

/// The error returned when a request parameter is out of its range.
#[derive(Clone, Debug)]
pub struct APIRequestError(pub String);

impl APIRequestError {
    /// The text that describes the error.
    pub fn message(&self) -> (r: String)
        ensures
            r@ == "illegal parameter: "@ + self.0@,
    {
        String::from_str("illegal parameter: ").concat(self.0.as_str())
    }
}

/// The error returned when a single field cannot be decoded.
#[derive(Clone, Debug)]
pub struct DecodeError {
    /// What the decoder accepts.
    pub expected: String,
    /// The text that was found.
    pub found: String,
}

} // verus!
