//! Time error types.

use vstd::prelude::*;

verus! {

/// Returned by a timeout whose deadline passed before the future completed.
#[derive(Clone, Copy, Debug, PartialEq, Eq)]
pub struct Elapsed(());

impl Elapsed {
    /// Creates the error. Every value of it is the same.
    pub fn new() -> Elapsed {
        Elapsed(())
    }

    /// The text that describes the error.
    pub fn description(&self) -> (text: &'static str)
        ensures
            text@ == "deadline has elapsed"@,
    {
        "deadline has elapsed"
    }
}

} // verus!
