//! Hosting: greeting guests and bringing them to a table.

use vstd::prelude::*;

verus! {

/// Put an arriving party on the waitlist. The step has no observable
/// effect of its own; it names a stage of the hosting workflow.
pub fn add_to_waitlist() {
}

/// Bring a waiting party to a free table.
pub fn seat_at_table() {
}

} // verus!
