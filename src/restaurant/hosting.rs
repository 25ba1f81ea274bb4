//! Receiving guests.

use vstd::prelude::*;

verus! {

/// Puts a party on the waiting list.
pub fn add_to_waitlist() {
}

/// Seats a party.
#[allow(dead_code)]
fn seat_at_table() {
}

} // verus!
