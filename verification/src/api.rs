//! Requests, responses and the rules of a paginated fetch.

use vstd::prelude::*;

pub mod batch;
pub mod client;
pub mod error;
pub mod pagination;

pub use client::Client;
pub use error::ApiError;

verus! {

/// The result of an operation of this library.
pub type ApiResult<T> = Result<T, ApiError>;

} // verus!
