//! Typed model, response normalisation and pagination rules for the
//! Bitpanda exchange REST API.
//!
//! The library holds everything that can be decided without touching the
//! network: which request to send next, how a raw page is turned into domain
//! values, and when a paginated fetch is complete.

pub mod api;
pub mod foreign;
pub mod model;
pub mod text;

pub use api::{ApiError, ApiResult, Client};
