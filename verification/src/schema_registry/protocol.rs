//! Subject naming, endpoint paths and response classification.

use crate::schema_registry::types::SchemaSubjectType;
use vstd::prelude::*;
use vstd::string::StringExecFns;

verus! {

/// The registry subject a topic's schemas are filed under:
/// `topic-key` or `topic-value`.
pub fn subject_name(topic: &str, subject_type: SchemaSubjectType) -> (r: String)
    ensures
        r@ == (match subject_type {
            SchemaSubjectType::Key => topic@ + "-key"@,
            SchemaSubjectType::Value => topic@ + "-value"@,
        }),
{
    let mut s = topic.to_owned();
    match subject_type {
        SchemaSubjectType::Key => s.append("-key"),
        SchemaSubjectType::Value => s.append("-value"),
    }
    s
}

/// The endpoint that registers a schema version under a subject.
pub fn register_url(base: &str, subject: &str) -> (r: String)
    ensures
        r@ == base@ + "/subjects/"@ + subject@ + "/versions"@,
{
    let mut s = base.to_owned();
    s.append("/subjects/");
    s.append(subject);
    s.append("/versions");
    s
}

/// The endpoint that gets or sets a subject's compatibility policy.
pub fn config_url(base: &str, subject: &str) -> (r: String)
    ensures
        r@ == base@ + "/config/"@ + subject@,
{
    let mut s = base.to_owned();
    s.append("/config/");
    s.append(subject);
    s
}

/// The endpoint that checks a candidate schema's compatibility against a
/// subject's recorded versions.
pub fn check_url(base: &str, subject: &str, verbose: bool) -> (r: String)
    ensures
        r@ == base@ + "/compatibility/subjects/"@ + subject@ + "/versions?verbose="@ + (if verbose {
            "true"@
        } else {
            "false"@
        }),
{
    let mut s = base.to_owned();
    s.append("/compatibility/subjects/");
    s.append(subject);
    s.append("/versions?verbose=");
    if verbose {
        s.append("true");
    } else {
        s.append("false");
    }
    s
}

/// Whether an HTTP status code reports success: the 2xx range, as the
/// registry uses it.
pub fn status_is_success(code: u16) -> (r: bool)
    ensures
        r == (200 <= code < 300),
{
    200 <= code && code < 300
}

} // verus!
