//! Serving: taking orders, delivering them, and settling the bill.

use vstd::prelude::*;

verus! {

/// Write down what a seated party orders.
pub fn take_order() {
}

/// Bring a finished order to the table.
pub fn serve_order() {
}

/// Settle the bill at the end of the visit.
pub fn take_payment() {
}

} // verus!
