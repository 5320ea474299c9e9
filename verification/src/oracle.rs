//! The structural compatibility oracle.
//!
//! Deciding whether a reader built from one Avro schema can decode data
//! written under another is delegated to the `apache_avro` crate. The
//! engine only composes such calls, so the oracle's verdict is modelled
//! by the uninterpreted name [`can_read_of`]: a pure function of the two
//! schemas, which is all the engine's contracts ever rely on.

use vstd::prelude::*;

verus! {

#[verifier::external_type_specification]
#[verifier::external_body]
pub struct ExSchema(apache_avro::Schema);

/// The verdict of `apache_avro`'s structural check: true exactly when a
/// reader built from `reader` can decode any datum written under `writer`
/// (full compatibility, never a resolution error at decode time). The
/// check is a pure function of the two schema definitions.
pub uninterp spec fn can_read_of(writer: apache_avro::Schema, reader: apache_avro::Schema) -> bool;

/// Relies on `apache_avro::schema_compatibility::SchemaCompatibility::can_read`:
/// a deterministic, recursive structural comparison of the two schemas.
/// Full compatibility is reported as `Ok(Compatibility::Full)`; a partial
/// overlap or a resolution error both mean some datum cannot be decoded.
#[verifier::external_body]
pub(crate) fn oracle_can_read(writer: &apache_avro::Schema, reader: &apache_avro::Schema) -> (r:
    bool)
    ensures
        r == can_read_of(*writer, *reader),
{
    match apache_avro::schema_compatibility::SchemaCompatibility::can_read(writer, reader) {
        Ok(apache_avro::schema_compatibility::Compatibility::Full) => true,
        Ok(apache_avro::schema_compatibility::Compatibility::Partial) => false,
        Err(_) => false,
    }
}

/// Relies on `apache_avro::schema_compatibility::SchemaCompatibility::mutual_read`,
/// whose source combines `can_read` in both directions and reports full
/// compatibility only when both directions are fully compatible.
#[verifier::external_body]
pub(crate) fn oracle_mutual_read(a: &apache_avro::Schema, b: &apache_avro::Schema) -> (r: bool)
    ensures
        r == (can_read_of(*a, *b) && can_read_of(*b, *a)),
{
    match apache_avro::schema_compatibility::SchemaCompatibility::mutual_read(a, b) {
        Ok(apache_avro::schema_compatibility::Compatibility::Full) => true,
        Ok(apache_avro::schema_compatibility::Compatibility::Partial) => false,
        Err(_) => false,
    }
}

} // verus!
