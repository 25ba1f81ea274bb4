//! The kitchen.

use vstd::prelude::*;

verus! {

/// A breakfast: the guest picks the toast, the kitchen the seasonal fruit.
pub struct Breakfast {
    pub toast: String,
    seasonal_fruit: String,
}

impl Breakfast {
    /// The toast of this breakfast.
    pub closed spec fn spec_toast(&self) -> Seq<char> {
        self.toast@
    }

    /// The fruit that comes with this breakfast.
    pub closed spec fn spec_seasonal_fruit(&self) -> Seq<char> {
        self.seasonal_fruit@
    }

    /// A summer breakfast with `toast`: it comes with peaches.
    pub fn summer(toast: &str) -> (r: Breakfast)
        ensures
            r.spec_toast() == toast@,
            r.spec_seasonal_fruit() == "peaches"@,
    {
        Breakfast { toast: toast.to_owned(), seasonal_fruit: "peaches".to_owned() }
    }
}

/// An appetizer.
pub enum Appetizer {
    Soup,
    Salad,
}

/// Cooks an order again and brings it out.
#[allow(dead_code)]
fn fix_incorrect_order() {
    cook_order();
    super::serve_order();
}

/// Cooks an order.
#[allow(dead_code)]
fn cook_order() {
}

} // verus!
