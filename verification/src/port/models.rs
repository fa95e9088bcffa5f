//! Request and response models of the service's HTTP interface.

use vstd::prelude::*;

verus! {

/// A subscription as the service reports it. `subscribe_since` is in
/// seconds since the Unix epoch, the form in which it is serialised.
#[derive(Debug, Clone, PartialEq, Eq, Default)]
pub struct Subscription {
    pub email: Option<String>,
    pub subscription_id: String,
    pub subscription_name: String,
    pub subscribe_since: i64,
}

/// A request to subscribe `email` to the newsletter `name`.
#[derive(Debug, Clone, PartialEq, Eq)]
pub struct CreateSubscriptionRequest {
    pub email: String,
    pub name: String,
}

/// A request for the subscriptions of `email`.
#[derive(Debug, Clone, PartialEq, Eq)]
pub struct GetSubscriptionRequest {
    pub email: String,
}

/// The subscriptions found for a request.
#[derive(Debug, Clone, PartialEq, Eq)]
pub struct GetSubscriptionsResponse {
    pub resp: Vec<Subscription>,
}

/// A plain message answering a request.
#[derive(Debug, Clone, PartialEq, Eq)]
pub struct SubscriptionResponse {
    pub message: String,
}

/// A request to remove the subscription with the given identifier.
#[derive(Debug, Clone, PartialEq, Eq)]
pub struct RemoveSubscriptionRequest {
    pub subscription_id: String,
}

/// The subscription that a removal took away.
#[derive(Debug, Clone, PartialEq, Eq)]
pub struct RemoveSubscriptionResponse {
    pub subscription: Subscription,
}

} // verus!
