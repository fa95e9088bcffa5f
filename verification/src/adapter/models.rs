//! Rows of the subscriptions table.

use vstd::prelude::*;

verus! {

/// A stored subscription. `id` is the 128-bit value of its UUID,
/// `subscribed_at` is in seconds since the Unix epoch.
#[derive(Debug, Clone, PartialEq, Eq)]
pub struct Subscription {
    pub id: u128,
    pub email: String,
    pub name: String,
    pub subscribed_at: i64,
}

} // verus!
