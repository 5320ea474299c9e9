//! Avro schema compatibility checking.
//!
//! Given an ordered history of schema versions (oldest first) and a named
//! compatibility policy, the library decides which pairwise or chained
//! reader/writer checks to run and folds their outcomes into one verdict.
//! The structural comparison of two schemas is delegated to the
//! `apache_avro` crate; everything around it — mode parsing, history
//! arity validation, check selection and result folding — is verified.

pub mod compat;
pub mod errors;
pub mod oracle;
pub mod schema_registry;
pub mod status;
pub mod validator;
