//! Typed bodies of the registry exchanges.

use crate::compat::{parse_spec, DegaussCompatMode};
use crate::errors::DegaussError;
use vstd::prelude::*;
use vstd::string::StringExecFns;

verus! {

/// How the client authenticates against the registry.
#[derive(Debug, Clone)]
pub enum Auth {
    Basic { username: String, password: String },
    Skip,
}

/// The error body of a non-success registry response.
#[derive(Debug, Clone, PartialEq, Eq)]
pub struct SchemaRegistryErrResponse {
    pub error_code: i32,
    pub message: String,
}

impl SchemaRegistryErrResponse {
    /// The typed error a non-success response surfaces: the remote code
    /// and message, carried verbatim.
    pub fn into_sr_error(self) -> (r: DegaussError)
        ensures
            r == (DegaussError::SrHttp { error_code: self.error_code, message: self.message }),
    {
        DegaussError::SrHttp { error_code: self.error_code, message: self.message }
    }
}

/// The subject under which a schema is registered: the key or the value
/// side of a topic.
#[derive(Clone, Copy, PartialEq, Eq, Structural, PartialOrd, Ord, Hash, Debug)]
pub enum SchemaSubjectType {
    Key,
    Value,
}

/// The canonical spelling of a subject type.
pub open spec fn subject_type_seq(st: SchemaSubjectType) -> Seq<char> {
    match st {
        SchemaSubjectType::Key => "key"@,
        SchemaSubjectType::Value => "value"@,
    }
}

impl SchemaSubjectType {
    /// Parse a subject type from its spelling, case-insensitively.
    pub fn parse(text: &str) -> (r: Result<SchemaSubjectType, DegaussError>)
        ensures
            match r {
                Ok(st) => crate::compat::normalize_text(text@) == subject_type_seq(st),
                Err(e) => {
                    &&& crate::compat::normalize_text(text@) != subject_type_seq(
                        SchemaSubjectType::Key,
                    )
                    &&& crate::compat::normalize_text(text@) != subject_type_seq(
                        SchemaSubjectType::Value,
                    )
                    &&& e matches DegaussError::ParseFailure(t) && t@ == text@
                },
            },
    {
        let norm = crate::compat::normalized_chars(text);
        if crate::compat::chars_eq(&norm, "key") {
            Ok(SchemaSubjectType::Key)
        } else if crate::compat::chars_eq(&norm, "value") {
            Ok(SchemaSubjectType::Value)
        } else {
            Err(DegaussError::ParseFailure(text.to_owned()))
        }
    }

    /// The canonical spelling of this subject type.
    pub fn to_canonical_string(&self) -> (r: String)
        ensures
            r@ == subject_type_seq(*self),
    {
        match self {
            SchemaSubjectType::Key => String::from_str("key"),
            SchemaSubjectType::Value => String::from_str("value"),
        }
    }
}

/// The body answering a schema registration: the identifier the registry
/// assigned.
#[derive(Debug, Clone, PartialEq, Eq)]
pub struct SchemaRegistrationResponse {
    pub id: i32,
}

/// The body answering a compatibility check for a candidate schema.
#[derive(Debug, Clone, PartialEq, Eq)]
pub struct SchemaCompatibleResponse {
    pub is_compatible: bool,
}

/// The body answering a compatibility-policy update: the registry echoes
/// the policy it stored, as text.
#[derive(Debug, Clone, PartialEq, Eq)]
pub struct SubjectCompatibilitySetResponse {
    pub compatibility: String,
}

impl SubjectCompatibilitySetResponse {
    /// The echoed policy decoded to a mode, whatever spelling the
    /// registry chose for it.
    pub fn mode(&self) -> (r: Result<DegaussCompatMode, DegaussError>)
        ensures
            match r {
                Ok(m) => parse_spec(self.compatibility@) == Some(m),
                Err(e) => {
                    &&& parse_spec(self.compatibility@) is None
                    &&& e matches DegaussError::ParseFailure(t) && t@ == self.compatibility@
                },
            },
    {
        DegaussCompatMode::parse(self.compatibility.as_str())
    }
}

/// The body answering a compatibility-policy query, with the policy
/// already decoded to a mode.
#[derive(Clone, Copy, PartialEq, Eq, Structural, Debug)]
pub struct SubjectCompatibilityGetResponse {
    pub compatibility_level: DegaussCompatMode,
}

impl SubjectCompatibilityGetResponse {
    /// Decode the textual policy of a wire response, accepting every
    /// recognized spelling of a mode.
    pub fn from_level_text(text: &str) -> (r: Result<
        SubjectCompatibilityGetResponse,
        DegaussError,
    >)
        ensures
            match r {
                Ok(resp) => parse_spec(text@) == Some(resp.compatibility_level),
                Err(e) => {
                    &&& parse_spec(text@) is None
                    &&& e matches DegaussError::ParseFailure(t) && t@ == text@
                },
            },
    {
        match DegaussCompatMode::parse(text) {
            Ok(m) => Ok(SubjectCompatibilityGetResponse { compatibility_level: m }),
            Err(e) => Err(e),
        }
    }
}

} // verus!
