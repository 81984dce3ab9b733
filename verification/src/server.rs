//! The caller-facing surface of the service: response data and errors.
//!
//! The HTTP transport itself (routing, middleware, listeners) stays outside;
//! these modules hold what the endpoints answer with.

pub mod data;
pub mod error;
