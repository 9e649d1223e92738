//! Errors reported while decoding a structured document.

use vstd::prelude::*;

verus! {

/// `std::string::FromUtf8Error` carried through as an opaque value.
#[verifier::external_type_specification]
#[verifier::external_body]
pub struct ExFromUtf8Error(std::string::FromUtf8Error);

/// What went wrong while decoding a document.
#[derive(Debug)]
pub enum DecodingError {
    MissingDictionaryValue,
    MissingField { field: &'static str },
    UnexpectedField { field: String },
    UnexpectedObject { expected_object: &'static str, actual_object: &'static str },
    UnexpectedEof,
    InvalidString(std::string::FromUtf8Error),
    Unknown,
}

impl DecodingError {
    pub fn missing_field(field: &'static str) -> (r: Self)
        ensures
            r == (DecodingError::MissingField { field }),
    {
        Self::MissingField { field }
    }

    pub fn unexpected_field(field: String) -> (r: Self)
        ensures
            r == (DecodingError::UnexpectedField { field }),
    {
        Self::UnexpectedField { field }
    }

    pub fn unexpected_object(expected_object: &'static str, actual_object: &'static str) -> (r:
        Self)
        ensures
            r == (DecodingError::UnexpectedObject { expected_object, actual_object }),
    {
        Self::UnexpectedObject { expected_object, actual_object }
    }
}

} // verus!
