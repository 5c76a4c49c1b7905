//! Hosting functions brought into scope in several ways.
use vstd::prelude::*;

verus! {

/// Puts a guest on the waiting list.
pub fn add_to_waitlist() {
}

/// Puts three guests on the waiting list.
pub fn eat_at_restaurant() {
    add_to_waitlist();
    add_to_waitlist();
    add_to_waitlist();
}

/// Puts a guest on the second waiting list.
pub fn add_to_waitlist2() {
}

/// Puts three guests on the second waiting list.
pub fn eat_at_restaurant2() {
    add_to_waitlist2();
    add_to_waitlist2();
    add_to_waitlist2();
}

/// Puts a guest on the third waiting list.
pub fn add_to_waitlist3() {
}

/// Puts three guests on the third waiting list.
pub fn eat_at_restaurant3() {
    add_to_waitlist3();
    add_to_waitlist3();
    add_to_waitlist3();
}

/// Puts a guest on the fourth waiting list.
pub fn add_to_waitlist4() {
}

/// Puts three guests on the fourth waiting list.
pub fn eat_at_restaurant4() {
    add_to_waitlist4();
    add_to_waitlist4();
    add_to_waitlist4();
}

} // verus!
