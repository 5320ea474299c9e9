use degauss::compat::DegaussCompatMode;
use degauss::errors::DegaussError;
use degauss::validator::validate_history;

#[test]
fn an_empty_history_is_rejected_for_every_mode() {
    for mode in [
        DegaussCompatMode::Backward,
        DegaussCompatMode::BackwardTransitive,
        DegaussCompatMode::Forward,
        DegaussCompatMode::ForwardTransitive,
        DegaussCompatMode::Full,
        DegaussCompatMode::FullTransitive,
    ] {
        assert_eq!(validate_history(mode, 0), Err(DegaussError::EmptyHistory));
    }
}

#[test]
fn a_single_schema_leaves_nothing_to_compare_for_every_mode() {
    for mode in [
        DegaussCompatMode::Backward,
        DegaussCompatMode::BackwardTransitive,
        DegaussCompatMode::Forward,
        DegaussCompatMode::ForwardTransitive,
        DegaussCompatMode::Full,
        DegaussCompatMode::FullTransitive,
    ] {
        assert_eq!(validate_history(mode, 1), Err(DegaussError::NothingToCompare));
    }
}

#[test]
fn a_pairwise_mode_with_three_schemas_is_an_arity_mismatch() {
    assert_eq!(
        validate_history(DegaussCompatMode::Backward, 3),
        Err(DegaussError::ArityMismatch)
    );
    assert_eq!(
        validate_history(DegaussCompatMode::Forward, 3),
        Err(DegaussError::ArityMismatch)
    );
    assert_eq!(
        validate_history(DegaussCompatMode::Full, 3),
        Err(DegaussError::ArityMismatch)
    );
}

#[test]
fn a_pairwise_mode_accepts_exactly_two_schemas() {
    assert_eq!(validate_history(DegaussCompatMode::Backward, 2), Ok(()));
    assert_eq!(validate_history(DegaussCompatMode::Forward, 2), Ok(()));
    assert_eq!(validate_history(DegaussCompatMode::Full, 2), Ok(()));
}

#[test]
fn a_transitive_mode_accepts_any_history_of_two_or_more() {
    assert_eq!(validate_history(DegaussCompatMode::BackwardTransitive, 2), Ok(()));
    assert_eq!(validate_history(DegaussCompatMode::ForwardTransitive, 5), Ok(()));
    assert_eq!(validate_history(DegaussCompatMode::FullTransitive, 17), Ok(()));
}
