//! The second waiting list.
use vstd::prelude::*;

verus! {

/// Puts a guest on the second waiting list.
pub fn add_to_waitlist2() {
}

} // verus!
