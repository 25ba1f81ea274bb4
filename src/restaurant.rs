//! A restaurant split into modules: hosting and serving at the front, the
//! kitchen at the back.

pub mod back_of_house;
pub mod hosting;
mod serving;

use vstd::prelude::*;

verus! {

/// Brings an order to its table.
#[allow(dead_code)]
fn serve_order() {
}

/// Reaches the waiting list by its absolute path and by its relative one.
pub fn eat_at_restaurant_abs_rel_paths() {
    crate::restaurant::hosting::add_to_waitlist();
    self::hosting::add_to_waitlist();
}

/// Orders each appetizer, whose variants are all public.
pub fn eat_at_restaurant_appetizer_with_public_instantiation() {
    let _order1 = back_of_house::Appetizer::Soup;
    let _order2 = back_of_house::Appetizer::Salad;
}

/// Reaches the waiting list through the module brought into scope.
pub fn eat_at_restaurant_with_use_notation() {
    hosting::add_to_waitlist();
    hosting::add_to_waitlist();
    hosting::add_to_waitlist();
}

} // verus!
