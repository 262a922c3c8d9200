//! Semantic error kinds shared by the whole pipeline.

use vstd::prelude::*;

verus! {

/// The error kinds of the pipeline. Every transport or provider failure is
/// surfaced uniformly as `ProviderError`; the remaining kinds classify
/// rejected input, missing lookups and missing template data.
#[derive(Debug)]
pub enum Error {
    ConfigError(String),
    ProviderError(String),
    HeaderError(String),
    NotFoundError(String),
    MissingDataError(String),
    ValidationError(String),
}

impl Error {
    /// The text carried by the error, whichever kind it is.
    pub open spec fn text(&self) -> Seq<char> {
        match self {
            Error::ConfigError(t) => t@,
            Error::ProviderError(t) => t@,
            Error::HeaderError(t) => t@,
            Error::NotFoundError(t) => t@,
            Error::MissingDataError(t) => t@,
            Error::ValidationError(t) => t@,
        }
    }

    /// The HTTP status code that the error maps to: bad input is 400,
    /// a missing referenced entity is 404, everything else is 500.
    pub open spec fn status_spec(&self) -> u16 {
        match self {
            Error::ValidationError(_) => 400,
            Error::HeaderError(_) => 400,
            Error::NotFoundError(_) => 404,
            _ => 500,
        }
    }

    /// The body text of an error response: client-facing kinds show their
    /// own text, internal kinds are masked.
    pub open spec fn response_text_spec(&self) -> Seq<char> {
        match self {
            Error::ValidationError(t) => t@,
            Error::NotFoundError(t) => t@,
            Error::HeaderError(t) => t@,
            Error::MissingDataError(t) => t@,
            _ => "Internal Server Error"@,
        }
    }

    /// Unwraps the carried text.
    pub fn message(self) -> (r: String)
        ensures
            r@ == self.text(),
    {
        match self {
            Error::ConfigError(t) => t,
            Error::ProviderError(t) => t,
            Error::HeaderError(t) => t,
            Error::NotFoundError(t) => t,
            Error::MissingDataError(t) => t,
            Error::ValidationError(t) => t,
        }
    }

    /// The HTTP status code for this error.
    pub fn http_status(&self) -> (r: u16)
        ensures
            r == self.status_spec(),
    {
        match self {
            Error::ValidationError(_) => 400,
            Error::HeaderError(_) => 400,
            Error::NotFoundError(_) => 404,
            _ => 500,
        }
    }

    /// The body text of an error response for this error.
    pub fn response_text(&self) -> (r: String)
        ensures
            r@ == self.response_text_spec(),
    {
        match self {
            Error::ValidationError(t) => t.clone(),
            Error::NotFoundError(t) => t.clone(),
            Error::HeaderError(t) => t.clone(),
            Error::MissingDataError(t) => t.clone(),
            _ => String::from_str("Internal Server Error"),
        }
    }
}

impl Clone for Error {
    fn clone(&self) -> (r: Self)
        ensures
            r == *self,
    {
        match self {
            Error::ConfigError(t) => Error::ConfigError(t.clone()),
            Error::ProviderError(t) => Error::ProviderError(t.clone()),
            Error::HeaderError(t) => Error::HeaderError(t.clone()),
            Error::NotFoundError(t) => Error::NotFoundError(t.clone()),
            Error::MissingDataError(t) => Error::MissingDataError(t.clone()),
            Error::ValidationError(t) => Error::ValidationError(t.clone()),
        }
    }
}

/// The serializable shape of an error reply.
pub struct ErrorResponse {
    pub message: String,
}

} // verus!
