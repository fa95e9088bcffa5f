//! The subscription store: the interface that a store implements, and the
//! rules by which a store's raw outcomes become the service's answers.

use vstd::prelude::*;
use crate::adapter::models::Subscription;
use crate::domain::errors::{is_internal_with, is_not_found_with, DomainError};
use crate::ids::{format_id, uuid_hyphenated};
use crate::port::models as api_models;

verus! {

/// A store of subscriptions. The service decides what to ask a store (a
/// `StoreCall`), asks it through `perform`, and answers from its reply.
///
/// Each method's answer is tied to the method's own arguments by a
/// predicate that the store defines (`added_answer_of`, `listed_answer_of`,
/// `removal_answer_of`). The predicates claim nothing about what a store
/// answers; they fix which arguments the answer belongs to. A store that
/// does not define them leaves them at `true`.
pub trait SubscriptionRepository {
    /// `answer` is an answer of this store to `add_subscription(name,
    /// email, subscribed_at)`.
    open spec fn added_answer_of(
        &self,
        name: Seq<char>,
        email: Seq<char>,
        subscribed_at: i64,
        answer: Result<api_models::Subscription, DomainError>,
    ) -> bool {
        true
    }

    /// `found` is an answer of this store to `get_subscriptions(email)`.
    open spec fn listed_answer_of(&self, email: Seq<char>, found: Seq<api_models::Subscription>) -> bool {
        true
    }

    /// `answer` is an answer of this store to `remove_subscription(id)`.
    open spec fn removal_answer_of(
        &self,
        id: u128,
        answer: Result<api_models::Subscription, DomainError>,
    ) -> bool {
        true
    }

    /// Stores a new subscription of `email` to `name`, made at
    /// `subscribed_at` (seconds since the Unix epoch).
    fn add_subscription(&self, name: String, email: String, subscribed_at: i64) -> (r: Result<
        api_models::Subscription,
        DomainError,
    >)
        ensures
            self.added_answer_of(name@, email@, subscribed_at, r),
    ;

    /// The subscriptions of `email`.
    fn get_subscriptions(&mut self, email: String) -> (r: Vec<api_models::Subscription>)
        ensures
            old(self).listed_answer_of(email@, r@),
    ;

    /// Removes the subscription whose identifier has the 128-bit value `id`.
    fn remove_subscription(&mut self, id: u128) -> (r: Result<api_models::Subscription, DomainError>)
        ensures
            old(self).removal_answer_of(id, r),
    ;
}

/// A request to a store, with its arguments: one call of the store method
/// of the same name.
#[derive(Debug, Clone, PartialEq, Eq)]
pub enum StoreCall {
    /// `add_subscription(name, email, subscribed_at)`
    Add { name: String, email: String, subscribed_at: i64 },
    /// `get_subscriptions(email)`
    List { email: String },
    /// `remove_subscription(id)`
    Remove { id: u128 },
}

/// A store's answer to a call: the result of the store method that the
/// call names.
#[derive(Debug, PartialEq, Eq)]
pub enum StoreAnswer {
    /// What `add_subscription` answered.
    Added(Result<api_models::Subscription, DomainError>),
    /// What `get_subscriptions` answered.
    Listed(Vec<api_models::Subscription>),
    /// What `remove_subscription` answered.
    Removed(Result<api_models::Subscription, DomainError>),
}

/// `answer` is of the kind that answers `call`.
pub open spec fn answers(call: StoreCall, answer: StoreAnswer) -> bool {
    match call {
        StoreCall::Add { .. } => answer is Added,
        StoreCall::List { .. } => answer is Listed,
        StoreCall::Remove { .. } => answer is Removed,
    }
}

/// Makes `call` on `repo`: the store method that the call names, with the
/// call's arguments, and gives back its answer.
pub fn perform<R: SubscriptionRepository + ?Sized>(repo: &mut R, call: StoreCall) -> (a:
    StoreAnswer)
    ensures
        answers(call, a),
        match call {
            StoreCall::Add { name, email, subscribed_at } => a matches StoreAnswer::Added(r)
                && old(repo).added_answer_of(name@, email@, subscribed_at, r),
            StoreCall::List { email } => a matches StoreAnswer::Listed(v) && old(
                repo,
            ).listed_answer_of(email@, v@),
            StoreCall::Remove { id } => a matches StoreAnswer::Removed(r) && old(
                repo,
            ).removal_answer_of(id, r),
        },
{
    match call {
        StoreCall::Add { name, email, subscribed_at } => StoreAnswer::Added(
            repo.add_subscription(name, email, subscribed_at),
        ),
        StoreCall::List { email } => StoreAnswer::Listed(repo.get_subscriptions(email)),
        StoreCall::Remove { id } => StoreAnswer::Removed(repo.remove_subscription(id)),
    }
}

/// How a store operation failed: no connection could be had, or the query
/// on it failed. Each carries the failure's text.
#[derive(Debug, Clone, PartialEq, Eq)]
pub enum StoreError {
    Connection(String),
    Query(String),
}

/// `s` is how the service reports the stored row `row`: no email, the
/// hyphenated identifier, the name and the time of subscribing.
pub open spec fn reports_row(s: api_models::Subscription, row: Subscription) -> bool {
    &&& s.email is None
    &&& s.subscription_id@ == uuid_hyphenated(row.id)
    &&& s.subscription_name@ == row.name@
    &&& s.subscribe_since == row.subscribed_at
}

/// The error text when no connection could be had for storing.
pub open spec fn add_connection_message(detail: Seq<char>) -> Seq<char> {
    "Database Error! Failed to get connection (Err="@ + detail + ")"@
}

/// The error text when storing a new subscription failed.
pub open spec fn add_query_message(detail: Seq<char>) -> Seq<char> {
    "failed to store new subscription (Error = "@ + detail + ")"@
}

/// The error text when no connection could be had for a removal.
pub open spec fn remove_connection_message(detail: Seq<char>) -> Seq<char> {
    "Database error. Failed to get connection `(Err="@ + detail + ")`"@
}

/// The error text when a removal's query failed.
pub open spec fn remove_query_message(detail: Seq<char>) -> Seq<char> {
    "Database error: "@ + detail
}

/// The error text when no subscription has the identifier `id`.
pub open spec fn missing_subscription_message(id: u128) -> Seq<char> {
    "subscription not found for id = "@ + uuid_hyphenated(id)
}

/// `s` is how the service reports a removed subscription: an empty email,
/// the hyphenated identifier, the name `()` and the time of removal.
pub open spec fn reports_removal(s: api_models::Subscription, id: u128, now: i64) -> bool {
    &&& s.email matches Some(e) && e@ == Seq::<char>::empty()
    &&& s.subscription_id@ == uuid_hyphenated(id)
    &&& s.subscription_name@ == "()"@
    &&& s.subscribe_since == now
}

fn text_with(prefix: &str, detail: &str, suffix: &str) -> (r: String)
    ensures
        r@ == prefix@ + detail@ + suffix@,
{
    let mut s = String::from_str(prefix);
    s.append(detail);
    s.append(suffix);
    s
}

/// How the service reports a stored row.
pub fn report_row(row: &Subscription) -> (r: api_models::Subscription)
    ensures
        reports_row(r, *row),
        r.email is None,
        r.subscription_id@ == uuid_hyphenated(row.id),
        r.subscription_name@ == row.name@,
        r.subscribe_since == row.subscribed_at,
{
    api_models::Subscription {
        email: None,
        subscription_id: format_id(row.id),
        subscription_name: row.name.clone(),
        subscribe_since: row.subscribed_at,
    }
}

/// Law: removing by the identifier text that an added subscription was
/// reported with reports the removal under that same text. (The text is
/// the hyphenated form of the row's identifier, which `removal_call` reads
/// back as the row's identifier.)
pub proof fn lemma_removal_reports_added_id(
    row: Subscription,
    added: api_models::Subscription,
    removed: api_models::Subscription,
    now: i64,
)
    requires
        reports_row(added, row),
        reports_removal(removed, row.id, now),
    ensures
        added.subscription_id@ == uuid_hyphenated(row.id),
        removed.subscription_id@ == added.subscription_id@,
{
}

/// The answer to adding `row`, given how storing it went: the reported row,
/// or an internal error whose text names the failure.
pub fn add_subscription_result(row: &Subscription, stored: Result<(), StoreError>) -> (r: Result<
    api_models::Subscription,
    DomainError,
>)
    ensures
        match stored {
            Ok(()) => r matches Ok(s) && reports_row(s, *row),
            Err(StoreError::Connection(d)) => r matches Err(e) && is_internal_with(
                e,
                add_connection_message(d@),
            ),
            Err(StoreError::Query(d)) => r matches Err(e) && is_internal_with(
                e,
                add_query_message(d@),
            ),
        },
        stored is Ok ==> (r matches Ok(s) && s.email is None && s.subscription_name@ == row.name@
            && s.subscribe_since == row.subscribed_at && s.subscription_id@ == uuid_hyphenated(
            row.id,
        )),
        stored matches Err(StoreError::Connection(d)) ==> (r matches Err(e) && e matches DomainError::Internal(
            m,
        ) && m@ == "Database Error! Failed to get connection (Err="@ + d@ + ")"@),
        stored matches Err(StoreError::Query(d)) ==> (r matches Err(e) && e matches DomainError::Internal(
            m,
        ) && m@ == "failed to store new subscription (Error = "@ + d@ + ")"@),
{
    match stored {
        Ok(()) => Ok(report_row(row)),
        Err(StoreError::Connection(d)) => Err(
            DomainError::Internal(
                text_with("Database Error! Failed to get connection (Err=", d.as_str(), ")"),
            ),
        ),
        Err(StoreError::Query(d)) => Err(
            DomainError::Internal(
                text_with("failed to store new subscription (Error = ", d.as_str(), ")"),
            ),
        ),
    }
}

/// The subscriptions reported for the rows a lookup loaded: each row in
/// order, or none at all where the lookup failed.
pub fn subscriptions_from_rows(rows: Result<Vec<Subscription>, StoreError>) -> (r: Vec<
    api_models::Subscription,
>)
    ensures
        match rows {
            Ok(v) => r.len() == v.len() && forall|i: int|
                0 <= i < v.len() ==> #[trigger] reports_row(r[i], v[i]),
            Err(_) => r.len() == 0,
        },
        rows matches Ok(v) ==> forall|i: int|
            0 <= i < v.len() ==> (#[trigger] r[i]).subscription_name@ == v[i].name@ && r[i].email is None
                && r[i].subscribe_since == v[i].subscribed_at && r[i].subscription_id@
                == uuid_hyphenated(v[i].id),
{
    match rows {
        Err(_) => Vec::new(),
        Ok(v) => {
            let mut out: Vec<api_models::Subscription> = Vec::new();
            let n = v.len();
            for i in 0..n
                invariant
                    n == v.len(),
                    out.len() == i,
                    forall|j: int| 0 <= j < i ==> #[trigger] reports_row(out[j], v[j]),
            {
                out.push(report_row(&v[i]));
            }
            assert forall|i: int| 0 <= i < v.len() implies (#[trigger] out[i]).subscription_name@
                == v[i].name@ && out[i].email is None && out[i].subscribe_since == v[i].subscribed_at
                && out[i].subscription_id@ == uuid_hyphenated(v[i].id) by {
                assert(reports_row(out[i], v[i]));
            }
            out
        },
    }
}

/// The answer to removing the subscription `id` at time `now`, given how
/// many rows the deletion took away or how it failed: an internal error
/// for a failure, `NotFound` where nothing was deleted, and otherwise the
/// removal's report.
pub fn remove_subscription_result(id: u128, deleted: Result<usize, StoreError>, now: i64) -> (r:
    Result<api_models::Subscription, DomainError>)
    ensures
        match deleted {
            Ok(n) => if n == 0 {
                r matches Err(e) && is_not_found_with(e, missing_subscription_message(id))
            } else {
                r matches Ok(s) && reports_removal(s, id, now)
            },
            Err(StoreError::Connection(d)) => r matches Err(e) && is_internal_with(
                e,
                remove_connection_message(d@),
            ),
            Err(StoreError::Query(d)) => r matches Err(e) && is_internal_with(
                e,
                remove_query_message(d@),
            ),
        },
        deleted matches Ok(n) ==> (n > 0 <==> r is Ok),
        deleted == Ok::<usize, StoreError>(0) ==> (r matches Err(e) && e matches DomainError::NotFound(m)
            && m@ == "subscription not found for id = "@ + uuid_hyphenated(id)),
        r matches Ok(s) ==> (s.subscription_id@ == uuid_hyphenated(id) && s.subscribe_since == now
            && s.subscription_name@ == "()"@ && (s.email matches Some(e) && e@.len() == 0)),
        deleted matches Err(StoreError::Connection(d)) ==> (r matches Err(e) && e matches DomainError::Internal(
            m,
        ) && m@ == "Database error. Failed to get connection `(Err="@ + d@ + ")`"@),
        deleted matches Err(StoreError::Query(d)) ==> (r matches Err(e) && e matches DomainError::Internal(
            m,
        ) && m@ == "Database error: "@ + d@),
{
    proof {
        reveal_strlit("");
    }
    match deleted {
        Err(StoreError::Connection(d)) => Err(
            DomainError::Internal(
                text_with("Database error. Failed to get connection `(Err=", d.as_str(), ")`"),
            ),
        ),
        Err(StoreError::Query(d)) => Err(
            DomainError::Internal(text_with("Database error: ", d.as_str(), "")),
        ),
        Ok(n) => {
            let shown = format_id(id);
            if n == 0 {
                Err(
                    DomainError::NotFound(
                        text_with("subscription not found for id = ", shown.as_str(), ""),
                    ),
                )
            } else {
                Ok(
                    api_models::Subscription {
                        email: Some(String::new()),
                        subscription_id: shown,
                        subscription_name: String::from_str("()"),
                        subscribe_since: now,
                    },
                )
            }
        },
    }
}

} // verus!
