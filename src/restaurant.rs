//! A restaurant's front and back of house, reached by absolute and relative paths.
use vstd::prelude::*;

verus! {

/// Puts a guest on the waiting list.
pub fn add_to_waitlist() {
}

/// Puts guests on the waiting list, by an absolute and by a relative path.
pub fn eat_at_restaurant() {
    crate::restaurant::add_to_waitlist();
    add_to_waitlist();
}

/// Brings an order to the table.
fn serve_order() {
}

/// Cooks an order again and serves it.
pub fn fix_incorrect_order() {
    cook_order();
    self::serve_order();
}

/// Cooks an order.
pub fn cook_order() {
}

/// Cooks an order, then fixes it.
pub fn incorrect_order() {
    cook_order();
    fix_incorrect_order();
}

/// A breakfast: the toast can be chosen, the fruit is the kitchen's.
pub struct Breakfast {
    pub toast: String,
    fruit: String,
}

impl Breakfast {
    /// The toast of the breakfast.
    pub closed spec fn spec_toast(self) -> Seq<char> {
        self.toast@
    }

    /// The fruit that comes with the breakfast.
    pub closed spec fn spec_fruit(self) -> Seq<char> {
        self.fruit@
    }

    /// Returns the summer breakfast: cheese toast and peaches, whatever
    /// toast was asked for.
    pub fn summer(_toast: &str) -> (r: Breakfast)
        ensures
            r.spec_toast() == "cheese toast"@,
            r.spec_fruit() == "peaches"@,
    {
        Breakfast { toast: String::from_str("cheese toast"), fruit: String::from_str("peaches") }
    }
}

/// A starter.
#[derive(Debug, Clone, Copy, PartialEq, Eq, Structural)]
pub enum Appetizer {
    Soup,
    Salad,
}

/// Orders one starter of each kind.
pub fn eat_at_restaurant3() {
    let _order1 = Appetizer::Soup;
    let _order2 = Appetizer::Salad;
}

} // verus!
