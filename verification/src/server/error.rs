//! Errors the caller-facing endpoints answer with, and how each maps to a
//! status code and a response body.

use vstd::prelude::*;

use crate::database;

verus! {

/// An endpoint error. Errors that wrap a transport or store failure carry
/// that failure's text.
#[allow(non_camel_case_types)]
#[derive(Debug, Clone, PartialEq)]
pub enum Error {
    /// A request ran past its serve timeout.
    Elapsed(String),
    FailedToPropagate,
    /// The request body was not valid JSON.
    InvalidSerialization(String),
    Hyper(String),
    Http(String),
    InvalidMethod,
    InvalidPath,
    InvalidContentType,
    RootMismatch,
    UNITIALIZED,
    Database(database::Error),
    Other(String),
}

/// The status code an error answers under.
pub open spec fn spec_status_code(e: Error) -> u16 {
    match e {
        Error::InvalidMethod => 405,
        Error::InvalidPath => 404,
        Error::InvalidContentType => 415,
        Error::InvalidSerialization(_) => 400,
        _ => 500,
    }
}

/// The body text an error answers with.
pub open spec fn spec_response_body(e: Error) -> Seq<char> {
    match e {
        Error::Elapsed(s) => s@,
        Error::FailedToPropagate => "Failed to propagate root"@,
        Error::InvalidSerialization(s) => "invalid JSON request: "@ + s@,
        Error::Hyper(s) => s@,
        Error::Http(s) => s@,
        Error::InvalidMethod => "invalid http method"@,
        Error::InvalidPath => "invalid path"@,
        Error::InvalidContentType => "invalid content type"@,
        Error::RootMismatch => "Root mismatch between world-id and scroll-world-id."@,
        Error::UNITIALIZED => "service is not initialized"@,
        Error::Database(database::Error::InternalError(s)) => "database error: "@ + s@,
        Error::Other(s) => s@,
    }
}

impl Error {
    /// The status code this error answers under: the request-shaped errors
    /// name their own code, everything else is an internal error.
    pub fn to_status_code(&self) -> (r: u16)
        ensures
            r == spec_status_code(*self),
    {
        match self {
            Error::InvalidMethod => 405,
            Error::InvalidPath => 404,
            Error::InvalidContentType => 415,
            Error::InvalidSerialization(_) => 400,
            _ => 500,
        }
    }

    /// The body text this error answers with.
    pub fn response_body(&self) -> (r: String)
        ensures
            r@ == spec_response_body(*self),
    {
        match self {
            Error::Elapsed(s) => s.clone(),
            Error::FailedToPropagate => "Failed to propagate root".to_owned(),
            Error::InvalidSerialization(s) => "invalid JSON request: ".to_owned().concat(
                s.as_str(),
            ),
            Error::Hyper(s) => s.clone(),
            Error::Http(s) => s.clone(),
            Error::InvalidMethod => "invalid http method".to_owned(),
            Error::InvalidPath => "invalid path".to_owned(),
            Error::InvalidContentType => "invalid content type".to_owned(),
            Error::RootMismatch => "Root mismatch between world-id and scroll-world-id."
                .to_owned(),
            Error::UNITIALIZED => "service is not initialized".to_owned(),
            Error::Database(database::Error::InternalError(s)) => "database error: ".to_owned()
                .concat(s.as_str()),
            Error::Other(s) => s.clone(),
        }
    }
}

} // verus!
