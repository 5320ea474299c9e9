//! History arity validation.
//!
//! Rejects a `(mode, history length)` combination before the engine runs,
//! so that the engine never faces an out-of-range index. The rejection is
//! a recoverable, caller-visible error, never a crash.

use crate::compat::{ChronologyClass, DegaussCompatMode};
use crate::errors::DegaussError;
use vstd::prelude::*;

verus! {

/// A history of `n` schemas fits `mode`: there are at least two schemas,
/// and a pairwise mode sees exactly two.
pub open spec fn history_acceptable(mode: DegaussCompatMode, n: nat) -> bool {
    &&& n >= 2
    &&& (mode.spec_chronology_class() == ChronologyClass::Pairwise ==> n == 2)
}

/// Check a history length against a mode's chronology class before the
/// engine runs. The rules, in order: an empty history is rejected as
/// `EmptyHistory`; a single schema as `NothingToCompare` (there is no
/// prior version to check against); a pairwise mode with anything but
/// exactly two schemas, and a transitive mode with fewer than two, as
/// `ArityMismatch`; everything else is accepted.
pub fn validate_history(mode: DegaussCompatMode, history_len: usize) -> (r: Result<
    (),
    DegaussError,
>)
    ensures
        r is Ok <==> history_acceptable(mode, history_len as nat),
        history_len == 0 ==> r == Err::<(), DegaussError>(DegaussError::EmptyHistory),
        history_len == 1 ==> r == Err::<(), DegaussError>(DegaussError::NothingToCompare),
        history_len > 2 && mode.spec_chronology_class() == ChronologyClass::Pairwise ==> r
            == Err::<(), DegaussError>(DegaussError::ArityMismatch),
{
    if history_len == 0 {
        Err(DegaussError::EmptyHistory)
    } else if history_len == 1 {
        Err(DegaussError::NothingToCompare)
    } else if matches!(mode.chronology_class(), ChronologyClass::Pairwise) && history_len != 2 {
        Err(DegaussError::ArityMismatch)
    } else {
        Ok(())
    }
}

/// An accepted `(mode, history length)` combination is exactly one the
/// engine's precondition admits: at least two schemas, and exactly two
/// for a pairwise mode — so a validated invocation never reaches the
/// oracle with an out-of-range index, and a pairwise mode invoked with
/// three or more schemas, or any mode with zero or one, is always
/// rejected.
pub proof fn lemma_validator_guards_engine(mode: DegaussCompatMode, n: nat)
    ensures
        history_acceptable(mode, n) ==> n >= 2,
        n < 2 || (mode.spec_chronology_class() == ChronologyClass::Pairwise && n != 2)
            ==> !history_acceptable(mode, n),
{
}

} // verus!
