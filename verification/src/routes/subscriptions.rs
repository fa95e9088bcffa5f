//! The subscription routes: subscribing, listing and unsubscribing.

use vstd::prelude::*;
use crate::adapter::repository::{perform, StoreAnswer, StoreCall, SubscriptionRepository};
use crate::domain::errors::{
    error_body_text, error_message, error_status, is_not_found_with, is_validation_with,
    DomainError,
};
use crate::json::{json_escaped, json_plain, lemma_json_escaped_concat, lemma_json_escaped_plain};
use crate::ids::{parse_id, uuid_hyphenated, uuid_parse};
use crate::port::models as api_models;

verus! {

/// The status of a created subscription.
pub const STATUS_CREATED: u16 = 201;

/// The status of a successful lookup.
pub const STATUS_OK: u16 = 200;

/// The status of a successful removal.
pub const STATUS_NO_CONTENT: u16 = 204;

/// The status of a subscription that could not be stored.
pub const STATUS_UNPROCESSABLE_ENTITY: u16 = 422;

/// The error text when `email` has no subscriptions.
pub open spec fn no_subscriptions_message(email: Seq<char>) -> Seq<char> {
    "no subscriptions found for email: "@ + email
}

/// The message confirming that `email` subscribed to `name`.
pub open spec fn created_message(name: Seq<char>, email: Seq<char>) -> Seq<char> {
    "Subscription created for user: "@ + name + " with email: "@ + email
}

/// The message when a subscription could not be stored.
pub open spec fn failed_creation_message() -> Seq<char> {
    "Failed to add subscription"@
}

/// `e` is the error for a subscription identifier that is not a UUID.
pub open spec fn is_invalid_id_error(e: DomainError) -> bool {
    is_validation_with(e, "subscription_id"@, "Id must be a uuid"@)
}

/// What to ask the store for a lookup: the subscriptions of the request's
/// email.
pub fn listing_call(req: &api_models::GetSubscriptionRequest) -> (c: StoreCall)
    ensures
        c matches StoreCall::List { email } && email@ == req.email@,
{
    StoreCall::List { email: req.email.clone() }
}

/// The answer to a lookup for the request's email that found `found`:
/// `NotFound` (404) naming the email where nothing was found, else exactly
/// the found subscriptions.
pub fn get_subscriptions(
    req: api_models::GetSubscriptionRequest,
    found: Vec<api_models::Subscription>,
) -> (r: Result<api_models::GetSubscriptionsResponse, DomainError>)
    ensures
        found.len() == 0 ==> (r matches Err(e) && is_not_found_with(
            e,
            no_subscriptions_message(req.email@),
        ) && error_status(e) == 404),
        found.len() > 0 ==> r == Ok::<api_models::GetSubscriptionsResponse, DomainError>(
            (api_models::GetSubscriptionsResponse { resp: found }),
        ),
{
    if found.len() == 0 {
        let mut msg = String::from_str("no subscriptions found for email: ");
        msg.append(req.email.as_str());
        Err(DomainError::NotFound(msg))
    } else {
        Ok(api_models::GetSubscriptionsResponse { resp: found })
    }
}

/// Law: the error body of a lookup that found nothing shows the email as
/// it was given, wherever JSON escaping leaves the email unchanged.
pub proof fn lemma_missing_subscriptions_body_shows_email(email: Seq<char>, e: DomainError)
    requires
        is_not_found_with(e, no_subscriptions_message(email)),
        json_plain(email),
    ensures
        exists|i: int|
            0 <= i && i + email.len() <= error_body_text(e).len() && #[trigger] error_body_text(
                e,
            ).subrange(i, i + email.len()) == email,
{
    let p = "resource not found: "@ + "no subscriptions found for email: "@;
    assert(error_message(e) =~= p + email);
    lemma_json_escaped_concat(p, email);
    lemma_json_escaped_plain(email);
    let head = "{\"error\":"@ + seq!['"'] + json_escaped(p);
    let body = error_body_text(e);
    assert(body =~= head + email + (seq!['"'] + "}"@));
    let i = head.len() as int;
    assert(body.subrange(i, i + email.len()) =~= email);
}

/// The identifier that a parse gave, or the validation error where the
/// text was no UUID.
pub fn id_or_validation_error(parsed: Option<u128>) -> (r: Result<u128, DomainError>)
    ensures
        match parsed {
            Some(id) => r == Ok::<u128, DomainError>(id),
            None => r matches Err(e) && is_invalid_id_error(e) && (e matches DomainError::Validation { field, message } && field@ == "subscription_id"@
                && message@ == "Id must be a uuid"@),
        },
{
    match parsed {
        Some(id) => Ok(id),
        None => Err(
            DomainError::Validation {
                field: String::from_str("subscription_id"),
                message: String::from_str("Id must be a uuid"),
            },
        ),
    }
}

/// What to ask the store for a removal request: to remove the identifier
/// that the request names, or nothing at all (a validation error, 400)
/// where the request names no UUID. Any identifier in the hyphenated form
/// that the service reports is read back as itself.
pub fn removal_call(req: &api_models::RemoveSubscriptionRequest) -> (r: Result<
    StoreCall,
    DomainError,
>)
    ensures
        match uuid_parse(req.subscription_id@) {
            Some(id) => r == Ok::<StoreCall, DomainError>(StoreCall::Remove { id }),
            None => r matches Err(e) && is_invalid_id_error(e) && error_status(e) == 400 && (e matches DomainError::Validation { field, message } && field@ == "subscription_id"@
                && message@ == "Id must be a uuid"@),
        },
        forall|id: u128|
            #[trigger] uuid_hyphenated(id) == req.subscription_id@ ==> r == Ok::<
                StoreCall,
                DomainError,
            >(StoreCall::Remove { id }),
{
    match id_or_validation_error(parse_id(req.subscription_id.as_str())) {
        Ok(id) => Ok(StoreCall::Remove { id }),
        Err(e) => Err(e),
    }
}

/// The answer to a removal, given what the store answered.
pub fn removal_response(res: Result<api_models::Subscription, DomainError>) -> (r: Result<
    api_models::RemoveSubscriptionResponse,
    DomainError,
>)
    ensures
        match res {
            Ok(s) => r == Ok::<api_models::RemoveSubscriptionResponse, DomainError>(
                (api_models::RemoveSubscriptionResponse { subscription: s }),
            ),
            Err(e) => r == Err::<api_models::RemoveSubscriptionResponse, DomainError>(e),
        },
{
    match res {
        Err(err) => Err(err),
        Ok(res) => Ok(api_models::RemoveSubscriptionResponse { subscription: res }),
    }
}

/// `r` is the status and message for a subscription request `req` that
/// the store answered with `added`: 201 with a confirmation naming the
/// newsletter and the email, or 422 where it could not be stored.
pub open spec fn creation_reply(
    req: api_models::CreateSubscriptionRequest,
    added: Result<api_models::Subscription, DomainError>,
    r: (u16, api_models::SubscriptionResponse),
) -> bool {
    if added is Ok {
        r.0 == STATUS_CREATED && r.1.message@ == created_message(req.name@, req.email@)
    } else {
        r.0 == STATUS_UNPROCESSABLE_ENTITY && r.1.message@ == failed_creation_message()
    }
}

/// The status and message answering a subscription request, given what the
/// store answered.
pub fn creation_response(
    req: &api_models::CreateSubscriptionRequest,
    added: &Result<api_models::Subscription, DomainError>,
) -> (r: (u16, api_models::SubscriptionResponse))
    ensures
        creation_reply(*req, *added, r),
        added is Ok ==> r.0 == 201 && r.1.message@ == "Subscription created for user: "@
            + req.name@ + " with email: "@ + req.email@,
        added is Err ==> r.0 == 422 && r.1.message@ == "Failed to add subscription"@,
{
    match added {
        Ok(_) => {
            let mut msg = String::from_str("Subscription created for user: ");
            msg.append(req.name.as_str());
            msg.append(" with email: ");
            msg.append(req.email.as_str());
            (STATUS_CREATED, api_models::SubscriptionResponse { message: msg })
        },
        Err(_) => (
            STATUS_UNPROCESSABLE_ENTITY,
            api_models::SubscriptionResponse {
                message: String::from_str("Failed to add subscription"),
            },
        ),
    }
}

/// What to ask the store for a subscription request: to store a
/// subscription of the request's email to the request's newsletter, made
/// at `now` (seconds since the Unix epoch).
pub fn creation_call(req: &api_models::CreateSubscriptionRequest, now: i64) -> (c: StoreCall)
    ensures
        c matches StoreCall::Add { name, email, subscribed_at } && name@ == req.name@ && email@
            == req.email@ && subscribed_at == now,
{
    StoreCall::Add { name: req.name.clone(), email: req.email.clone(), subscribed_at: now }
}


/// `r` answers a lookup for `email` that found `found`: `NotFound` (404)
/// naming the email where nothing was found, else exactly the found
/// subscriptions.
pub open spec fn listing_answer(
    email: Seq<char>,
    found: Seq<api_models::Subscription>,
    r: Result<api_models::GetSubscriptionsResponse, DomainError>,
) -> bool {
    if found.len() == 0 {
        r matches Err(e) && is_not_found_with(e, no_subscriptions_message(email)) && error_status(e)
            == 404
    } else {
        r matches Ok(g) && g.resp@ == found
    }
}

/// `r` passes on the store's answer `answer` to a removal.
pub open spec fn removal_answer(
    answer: Result<api_models::Subscription, DomainError>,
    r: Result<api_models::RemoveSubscriptionResponse, DomainError>,
) -> bool {
    match answer {
        Ok(s) => r == Ok::<api_models::RemoveSubscriptionResponse, DomainError>(
            (api_models::RemoveSubscriptionResponse { subscription: s }),
        ),
        Err(e) => r == Err::<api_models::RemoveSubscriptionResponse, DomainError>(e),
    }
}

/// Subscribes: asks `repo` the call of `creation_call` and answers with
/// `creation_response` after the store's answer.
pub fn subscribe<R: SubscriptionRepository + ?Sized>(
    req: &api_models::CreateSubscriptionRequest,
    repo: &mut R,
    now: i64,
) -> (r: (u16, api_models::SubscriptionResponse))
    ensures
        exists|added: Result<api_models::Subscription, DomainError>|
            #[trigger] old(repo).added_answer_of(req.name@, req.email@, now, added)
                && creation_reply(*req, added, r) && (added is Ok ==> r.0 == 201 && r.1.message@
                == "Subscription created for user: "@ + req.name@ + " with email: "@ + req.email@)
                && (added is Err ==> r.0 == 422 && r.1.message@ == "Failed to add subscription"@),
{
    let call = creation_call(req, now);
    match perform(repo, call) {
        StoreAnswer::Added(added) => {
            let r = creation_response(req, &added);
            assert(creation_reply(*req, added, r));
            r
        },
        _ => {
            assert(false);
            creation_response(req, &Err(DomainError::Internal(String::new())))
        },
    }
}

/// Looks up: asks `repo` the call of `listing_call` and answers with
/// `get_subscriptions` after what the store found.
pub fn lookup<R: SubscriptionRepository + ?Sized>(
    req: api_models::GetSubscriptionRequest,
    repo: &mut R,
) -> (r: Result<api_models::GetSubscriptionsResponse, DomainError>)
    ensures
        exists|found: Seq<api_models::Subscription>|
            #[trigger] old(repo).listed_answer_of(req.email@, found) && listing_answer(
                req.email@,
                found,
                r,
            ) && (found.len() > 0 ==> (r matches Ok(g) && g.resp.len() == found.len() && forall|
                i: int,
            | 0 <= i < found.len() ==> #[trigger] g.resp[i] == found[i])) && (found.len() == 0
                ==> (r matches Err(e) && e matches DomainError::NotFound(m) && m@
                == "no subscriptions found for email: "@ + req.email@)),
{
    let call = listing_call(&req);
    let ghost email = req.email@;
    match perform(repo, call) {
        StoreAnswer::Listed(found) => {
            let ghost f = found@;
            let r = get_subscriptions(req, found);
            assert(listing_answer(email, f, r));
            r
        },
        _ => {
            assert(false);
            get_subscriptions(req, Vec::new())
        },
    }
}

/// Unsubscribes: a request naming no UUID is refused with the validation
/// error and the store is left alone; otherwise `repo` is asked the call
/// of `removal_call` and its answer is passed on by `removal_response`.
pub fn unsubscribe<R: SubscriptionRepository + ?Sized>(
    req: api_models::RemoveSubscriptionRequest,
    repo: &mut R,
) -> (r: Result<api_models::RemoveSubscriptionResponse, DomainError>)
    ensures
        match uuid_parse(req.subscription_id@) {
            None => r matches Err(e) && is_invalid_id_error(e) && error_status(e) == 400 && (e matches DomainError::Validation { field, message } && field@ == "subscription_id"@
                && message@ == "Id must be a uuid"@)
                && &*final(repo) == &*old(repo),
            Some(id) => exists|answer: Result<api_models::Subscription, DomainError>|
                #[trigger] old(repo).removal_answer_of(id, answer) && removal_answer(answer, r)
                    && (answer matches Ok(sub) ==> (r matches Ok(resp) && resp.subscription == sub))
                    && (answer matches Err(e) ==> r == Err::<
                    api_models::RemoveSubscriptionResponse,
                    DomainError,
                >(e)),
        },
{
    match removal_call(&req) {
        Err(e) => Err(e),
        Ok(call) => match perform(repo, call) {
            StoreAnswer::Removed(answer) => {
                let ghost a = answer;
                let r = removal_response(answer);
                assert(removal_answer(a, r));
                r
            },
            _ => {
                assert(false);
                removal_response(Err(DomainError::Internal(String::new())))
            },
        },
    }
}

/// The status of a lookup's answer: 200 for the found subscriptions, the
/// error's own status otherwise.
pub fn lookup_status(r: &Result<api_models::GetSubscriptionsResponse, DomainError>) -> (s: u16)
    ensures
        match r {
            Ok(_) => s == STATUS_OK && s == 200,
            Err(e) => s == error_status(*e),
        },
{
    match r {
        Ok(_) => STATUS_OK,
        Err(e) => e.status_code(),
    }
}

/// The status of a removal's answer: 204 for the removed subscription, the
/// error's own status otherwise.
pub fn removal_status(r: &Result<api_models::RemoveSubscriptionResponse, DomainError>) -> (s: u16)
    ensures
        match r {
            Ok(_) => s == STATUS_NO_CONTENT && s == 204,
            Err(e) => s == error_status(*e),
        },
{
    match r {
        Ok(_) => STATUS_NO_CONTENT,
        Err(e) => e.status_code(),
    }
}


/// Law: whenever the store accepts a subscription, the answer is 201 with
/// the confirmation naming the request's newsletter and email, whatever
/// their text; whenever it refuses, the answer is 422. Success depends on
/// the store's answer alone.
pub proof fn lemma_creation_follows_the_store(
    req: api_models::CreateSubscriptionRequest,
    added: Result<api_models::Subscription, DomainError>,
    r: (u16, api_models::SubscriptionResponse),
)
    requires
        creation_reply(req, added, r),
    ensures
        (r.0 == 201) <==> added is Ok,
        added is Ok ==> r.1.message@ == "Subscription created for user: "@ + req.name@
            + " with email: "@ + req.email@,
        added is Err ==> r.0 == 422 && r.1.message@ == "Failed to add subscription"@,
{
}

/// Law: a successful lookup lists exactly what the store found, entry for
/// entry, nothing added or dropped; a lookup that found nothing is
/// `NotFound` naming the email.
pub proof fn lemma_lookup_lists_exactly_what_was_found(
    email: Seq<char>,
    found: Seq<api_models::Subscription>,
    r: Result<api_models::GetSubscriptionsResponse, DomainError>,
)
    requires
        listing_answer(email, found, r),
    ensures
        found.len() > 0 ==> (r matches Ok(g) && g.resp.len() == found.len() && forall|i: int|
            0 <= i < found.len() ==> #[trigger] g.resp[i] == found[i]),
        found.len() == 0 ==> (r matches Err(e) && e matches DomainError::NotFound(m) && m@
            == "no subscriptions found for email: "@ + email),
{
}

/// Law: a removal that the store answers with a subscription is answered
/// with exactly that subscription, whatever its identifier; only the
/// store's errors become errors, and they are passed on unchanged.
pub proof fn lemma_removal_passes_on_the_store_answer(
    answer: Result<api_models::Subscription, DomainError>,
    r: Result<api_models::RemoveSubscriptionResponse, DomainError>,
)
    requires
        removal_answer(answer, r),
    ensures
        answer is Ok <==> r is Ok,
        answer matches Ok(sub) ==> (r matches Ok(resp) && resp.subscription == sub),
        answer matches Err(e) ==> (r matches Err(e2) && e2 == e),
{
}

} // verus!
