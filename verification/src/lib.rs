//! A typed abstraction for describing and executing remote HTTP operations.
//!
//! A caller declares an [`endpoint::Endpoint`]: a value whose methods describe
//! one remote operation (its relative path, HTTP verb, query parameters,
//! request data and result type). Executing the endpoint against a
//! [`client::Client`] builds the request URL, serializes the request body,
//! dispatches the request through the client, and decodes the raw response
//! into the endpoint's declared result type.

pub mod client;
pub mod endpoint;

pub use crate::endpoint::Endpoint;
pub mod enums;
pub mod errors;
pub mod json;
pub mod segments;
pub mod urls;
