use apache_avro::Schema;
use degauss::compat::{DegaussCheck, DegaussCompatMode};

const SCHEMA1: &str = r#"
{
    "type": "record",
    "name": "movie",
    "fields": [
        {"name": "movie_id", "type": "long"},
        {"name": "title", "type": "string"}
    ]
}
"#;

const SCHEMA2: &str = r#"
{
    "type": "record",
    "name": "movie",
    "fields": [
        {"name": "movie_id", "type": "long"},
        {"name": "title", "type": "string"},
        {"name": "genre", "type": "string", "default": "unknown"}
    ]
}
"#;

const SCHEMA3: &str = r#"
{
    "type": "record",
    "name": "movie",
    "fields": [
        {"name": "movie_id", "type": "long"},
        {"name": "title", "type": "string"},
        {"name": "genre", "type": "string"}
    ]
}
"#;

const SCHEMA8: &str = r#"
{
    "type": "record",
    "name": "movie",
    "fields": [
        {"name": "movie_id", "type": "long"},
        {"name": "title", "type": "string"},
        {"name": "genre", "type": "string", "default": "unknown"},
        {"name": "runtime", "type": "long", "default": 120}
    ]
}
"#;

fn schema(definition: &str) -> Schema {
    Schema::parse_str(definition).unwrap()
}

#[test]
fn full_transitive_compat_tests_iteratively_adding_fields_with_defaults_is_a_compatible_change() {
    let schemas = vec![
        schema(SCHEMA1),
        schema(SCHEMA2),
        schema(SCHEMA8),
    ];
    let dc = DegaussCheck(DegaussCompatMode::FullTransitive);
    assert_eq!(dc.validate(&schemas), true);
}

#[test]
fn full_transitive_compat_tests_iteratively_removing_fields_with_defaults_is_a_compatible_change() {
    let schemas = vec![
        schema(SCHEMA8),
        schema(SCHEMA2),
        schema(SCHEMA1),
    ];
    let dc = DegaussCheck(DegaussCompatMode::FullTransitive);
    assert_eq!(dc.validate(&schemas), true);
}

#[test]
fn full_transitive_compat_tests_adding_default_to_a_field_is_a_compatible_change() {
    let schemas = vec![
        schema(SCHEMA3),
        schema(SCHEMA2),
    ];
    let dc = DegaussCheck(DegaussCompatMode::FullTransitive);
    assert_eq!(dc.validate(&schemas), true);
}

#[test]
fn full_transitive_compat_tests_removing_a_field_with_a_default_is_a_compatible_change() {
    let schemas = vec![
        schema(SCHEMA2),
        schema(SCHEMA1),
    ];
    let dc = DegaussCheck(DegaussCompatMode::FullTransitive);
    assert_eq!(dc.validate(&schemas), true);
}

#[test]
fn adding_a_field_with_default_is_a_compatible_change() {
    let schemas = vec![
        schema(SCHEMA1),
        schema(SCHEMA2),
    ];
    let dc = DegaussCheck(DegaussCompatMode::FullTransitive);
    assert_eq!(dc.validate(&schemas), true);
}

#[test]
fn removing_a_default_from_a_field_compatible_change() {
    let schemas = vec![
        schema(SCHEMA2),
        schema(SCHEMA3),
    ];
    let dc = DegaussCheck(DegaussCompatMode::FullTransitive);
    assert_eq!(dc.validate(&schemas), true);
}

#[test]
fn full_transitive_compat_tests_transitively_adding_a_field_without_a_default_is_not_a_compatible_change() {
    let schemas = vec![
        schema(SCHEMA2),
        schema(SCHEMA1),
        schema(SCHEMA3),
    ];
    let dc = DegaussCheck(DegaussCompatMode::FullTransitive);
    assert_eq!(dc.validate(&schemas), false);
}

#[test]
fn full_transitive_compat_tests_transitively_removing_a_field_without_a_default_is_not_a_compatible_change() {
    let schemas = vec![
        schema(SCHEMA2),
        schema(SCHEMA3),
        schema(SCHEMA1),
    ];
    let dc = DegaussCheck(DegaussCompatMode::FullTransitive);
    assert_eq!(dc.validate(&schemas), false);
}
