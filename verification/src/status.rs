//! Exit status of a command.

use vstd::prelude::*;

verus! {

/// Represents the exit status of a command.
pub enum Status {
    Success,
    Failure,
}

impl Status {
    /// The status a verdict maps to: `Success` when all checks passed,
    /// `Failure` otherwise.
    pub fn from_passed(passed: bool) -> (r: Status)
        ensures
            r == (if passed {
                Status::Success
            } else {
                Status::Failure
            }),
    {
        if passed {
            Status::Success
        } else {
            Status::Failure
        }
    }

    /// Convert a given status to its `i32` representation:
    /// `Success` is 0, `Failure` is -1.
    pub fn to_i32(&self) -> (r: i32)
        ensures
            r == (match self {
                Status::Success => 0i32,
                Status::Failure => -1i32,
            }),
    {
        match self {
            Status::Failure => -1,
            Status::Success => 0,
        }
    }
}

} // verus!
