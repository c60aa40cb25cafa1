//! The ways a filtered request can be refused or fail.

use vstd::prelude::*;

verus! {

use vstd::string::StringExecFns;

/// Why a request did not reach, or did not return from, the backend.
#[derive(Debug)]
pub enum Error {
    /// The request body is not valid JSON.
    MalformedPayload,
    /// The JSON document has no top-level "method" entry.
    MethodIsNotDefined,
    /// The "method" entry is present but not a string.
    MethodIsNotString,
    /// The named method is absent from the allow-list.
    NotAllowedMethod(String),
    /// An I/O failure while collecting a body or calling the backend.
    Transport,
}

impl Error {
    /// Human-readable description of the error.
    pub fn message(&self) -> (r: String)
        ensures
            r@ == match self {
                Error::MalformedPayload => "Malformed payload"@,
                Error::MethodIsNotDefined => "Method is not defined"@,
                Error::MethodIsNotString => "Method is not a string"@,
                Error::NotAllowedMethod(m) => m@ + " is not allowed method"@,
                Error::Transport => "Transport error"@,
            },
    {
        match self {
            Error::MalformedPayload => String::from_str("Malformed payload"),
            Error::MethodIsNotDefined => String::from_str("Method is not defined"),
            Error::MethodIsNotString => String::from_str("Method is not a string"),
            Error::NotAllowedMethod(m) => m.clone().concat(" is not allowed method"),
            Error::Transport => String::from_str("Transport error"),
        }
    }
}

} // verus!
