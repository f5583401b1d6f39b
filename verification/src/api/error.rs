//! Errors.

use reqwest::Error as HttpError;
use serde_json::Error as JsonError;
use vstd::prelude::*;
use vstd::std_specs::convert::FromSpecImpl;

verus! {

/// What can go wrong in talking to the exchange.
#[derive(Debug)]
pub enum ApiError {
    /// The HTTP exchange failed.
    Http(HttpError),
    /// The exchange knows no such asset.
    NoSuchAsset(String),
    /// The payload did not have the expected shape.
    Parse(JsonError),
    /// The exchange signalled a failure of its own.
    ServerError,
    /// A field held a token outside the closed set of its type.
    UnexpectedValue(String),
    /// An operation that needs an API key was tried without one.
    Unauthorized,
}

impl From<HttpError> for ApiError {
    fn from(value: HttpError) -> (r: Self) {
        ApiError::Http(value)
    }
}

impl FromSpecImpl<HttpError> for ApiError {
    open spec fn obeys_from_spec() -> bool {
        true
    }

    open spec fn from_spec(value: HttpError) -> Self {
        ApiError::Http(value)
    }
}

impl From<JsonError> for ApiError {
    fn from(value: JsonError) -> (r: Self) {
        ApiError::Parse(value)
    }
}

impl FromSpecImpl<JsonError> for ApiError {
    open spec fn obeys_from_spec() -> bool {
        true
    }

    open spec fn from_spec(value: JsonError) -> Self {
        ApiError::Parse(value)
    }
}

impl ApiError {
    /// The offending token of an `UnexpectedValue`, as characters.
    pub open spec fn unexpected_token(self) -> Option<Seq<char>> {
        match self {
            ApiError::UnexpectedValue(token) => Some(token@),
            _ => None,
        }
    }
}

} // verus!
