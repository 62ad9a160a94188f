//! The standard library's task wakers, as this crate stores them.

use vstd::prelude::*;
use std::task::Waker;

verus! {

/// A handle that wakes a task, `std::task::Waker`.
/// Nothing inside it is visible here; it is only stored and handed back.
#[verifier::external_type_specification]
#[verifier::external_body]
pub struct ExWaker(Waker);

/// Clones a waker, calling `std::task::Waker::clone`.
/// The clone wakes the same task; nothing about it is stated here.
#[verifier::external_body]
pub fn clone_waker(waker: &Waker) -> Waker {
    waker.clone()
}

/// Calls `std::task::Waker::will_wake`, which tells whether two wakers would
/// wake the same task. Its answer rests on addresses, so nothing about it is
/// stated here.
#[verifier::external_body]
pub fn wakes_same_task(stored: &Waker, other: &Waker) -> bool {
    stored.will_wake(other)
}

} // verus!
