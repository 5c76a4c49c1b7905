//! Hosting functions kept in files of their own.
use vstd::prelude::*;

pub mod hosting;
pub mod hosting2;

verus! {

/// Puts three guests on the waiting list.
pub fn eat_at_restaurant() {
    hosting::add_to_waitlist();
    hosting::add_to_waitlist();
    hosting::add_to_waitlist();
}

/// Puts three guests on the second waiting list.
pub fn eat_at_restaurant2() {
    hosting2::add_to_waitlist2();
    hosting2::add_to_waitlist2();
    hosting2::add_to_waitlist2();
}

} // verus!
