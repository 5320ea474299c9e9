use apache_avro::Schema;
use degauss::compat::{DegaussCheck, DegaussCompatMode};

const SCHEMA1: &str = r#"
{
    "type": "record",
    "name": "movie",
    "fields": [
        {"name": "movie_id", "type": "long"},
        {"name": "title", "type": "string"}
    ]
}
"#;

const SCHEMA2: &str = r#"
{
    "type": "record",
    "name": "movie",
    "fields": [
        {"name": "movie_id", "type": "long"},
        {"name": "title", "type": "string"},
        {"name": "genre", "type": "string", "default": "unknown"}
    ]
}
"#;

const SCHEMA3: &str = r#"
{
    "type": "record",
    "name": "movie",
    "fields": [
        {"name": "movie_id", "type": "long"},
        {"name": "title", "type": "string"},
        {"name": "genre", "type": "string"}
    ]
}
"#;

const SCHEMA8: &str = r#"
{
    "type": "record",
    "name": "movie",
    "fields": [
        {"name": "movie_id", "type": "long"},
        {"name": "title", "type": "string"},
        {"name": "genre", "type": "string", "default": "unknown"},
        {"name": "runtime", "type": "long", "default": 120}
    ]
}
"#;

fn schema(definition: &str) -> Schema {
    Schema::parse_str(definition).unwrap()
}

#[test]
fn backward_transitive_compat_tests_iteratively_adding_fields_with_defaults_is_a_compatible_change() {
    let schemas = vec![
        schema(SCHEMA1),
        schema(SCHEMA2),
        schema(SCHEMA8),
    ];
    let dc = DegaussCheck(DegaussCompatMode::BackwardTransitive);
    assert_eq!(dc.validate(&schemas), true);
}

#[test]
fn adding_a_field_with_default_is_a_backward_compatible_change() {
    let schemas = vec![
        schema(SCHEMA2),
        schema(SCHEMA1),
    ];
    let dc = DegaussCheck(DegaussCompatMode::BackwardTransitive);
    assert_eq!(dc.validate(&schemas), true);
}

#[test]
fn removing_a_default_is_a_compatible_change_but_not_transitively() {
    let schemas = vec![
        schema(SCHEMA3),
        schema(SCHEMA2),
    ];
    let dc = DegaussCheck(DegaussCompatMode::BackwardTransitive);
    assert_eq!(dc.validate(&schemas), true);
}

#[test]
fn backward_transitive_compat_tests_removing_a_default_is_not_a_transitively_compatible_change() {
    let schemas = vec![
        schema(SCHEMA2),
        schema(SCHEMA1),
        schema(SCHEMA3),
    ];
    let dc = DegaussCheck(DegaussCompatMode::BackwardTransitive);
    assert_eq!(dc.validate(&schemas), false);
}
