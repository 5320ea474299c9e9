//! The data and the decisions behind the schema-registry client.
//!
//! The wire formats, subject naming, endpoint paths and response
//! classification live here; performing the HTTP exchange itself is left
//! to the caller.

pub mod protocol;
pub mod types;
