//! Errors surfaced by the library.
//!
//! Precondition violations and parse failures are recoverable values that
//! callers report to the user; registry-facing failures carry the remote
//! error code and message verbatim so that operators can tell the cases
//! apart.

use vstd::prelude::*;
use vstd::string::StringExecFns;

verus! {

#[derive(Debug, Clone, PartialEq, Eq)]
pub enum DegaussError {
    /// The text matched no recognized spelling of a compatibility mode.
    ParseFailure(String),
    /// The schema history holds no schema at all.
    EmptyHistory,
    /// The schema history holds a single schema: there is no prior
    /// version to check against.
    NothingToCompare,
    /// The history length does not fit the mode's chronology class.
    ArityMismatch,
    /// A schema source could not be read.
    IO(String),
    /// A schema definition could not be parsed.
    Schema(String),
    /// A registry response body could not be decoded.
    Serde(String),
    /// The HTTP client could not be built or could not reach the registry.
    HTTPClient(String),
    /// A request could not be assembled.
    Http(String),
    /// The registry answered with a non-success status code and a decoded
    /// error body.
    SrHttp { error_code: i32, message: String },
    /// Any other failure, described in text.
    Custom(String),
}

impl DegaussError {
    /// A readable one-line description of the error.
    pub fn message(&self) -> (r: String)
        ensures
            (match self {
                DegaussError::ParseFailure(t) => r@ == "unrecognized compatibility mode: "@ + t@,
                DegaussError::EmptyHistory => r@ == "the schema history is empty"@,
                DegaussError::NothingToCompare => r@
                    == "there is nothing to compare against: the history holds a single schema"@,
                DegaussError::ArityMismatch => r@
                    == "the number of schemas does not fit the compatibility mode"@,
                DegaussError::IO(t) => r@ == "failed to read schema source: "@ + t@,
                DegaussError::Schema(t) => r@ == "failed to parse schema: "@ + t@,
                DegaussError::Serde(t) => r@ == "failed to decode registry response: "@ + t@,
                DegaussError::HTTPClient(t) => r@ == "http client failure: "@ + t@,
                DegaussError::Http(t) => r@ == "bad request: "@ + t@,
                DegaussError::SrHttp { error_code, message } => r@ == "registry error: "@
                    + message@,
                DegaussError::Custom(t) => r@ == t@,
            }),
    {
        match self {
            DegaussError::ParseFailure(t) => {
                let mut s = String::from_str("unrecognized compatibility mode: ");
                s.append(t.as_str());
                s
            },
            DegaussError::EmptyHistory => String::from_str("the schema history is empty"),
            DegaussError::NothingToCompare => String::from_str(
                "there is nothing to compare against: the history holds a single schema",
            ),
            DegaussError::ArityMismatch => String::from_str(
                "the number of schemas does not fit the compatibility mode",
            ),
            DegaussError::IO(t) => {
                let mut s = String::from_str("failed to read schema source: ");
                s.append(t.as_str());
                s
            },
            DegaussError::Schema(t) => {
                let mut s = String::from_str("failed to parse schema: ");
                s.append(t.as_str());
                s
            },
            DegaussError::Serde(t) => {
                let mut s = String::from_str("failed to decode registry response: ");
                s.append(t.as_str());
                s
            },
            DegaussError::HTTPClient(t) => {
                let mut s = String::from_str("http client failure: ");
                s.append(t.as_str());
                s
            },
            DegaussError::Http(t) => {
                let mut s = String::from_str("bad request: ");
                s.append(t.as_str());
                s
            },
            DegaussError::SrHttp { error_code: _, message } => {
                let mut s = String::from_str("registry error: ");
                s.append(message.as_str());
                s
            },
            DegaussError::Custom(t) => t.clone(),
        }
    }
}

} // verus!
