use std::cell::RefCell;
use std::collections::HashMap;

use service::adapter::models::Subscription as Row;
use service::adapter::repository::{
    add_subscription_result, remove_subscription_result, subscriptions_from_rows, StoreCall,
    SubscriptionRepository,
};
use service::adapter::repository::{perform, StoreAnswer};
use service::domain::errors::DomainError;
use service::port::models::{
    CreateSubscriptionRequest, GetSubscriptionRequest, RemoveSubscriptionRequest, Subscription,
};
use service::routes::echo::{echo, Params};
use service::routes::health_check::health_check;
use service::routes::subscriptions::{
    creation_call, get_subscriptions, listing_call, lookup, lookup_status, removal_call,
    removal_status, subscribe, unsubscribe,
};
use service::port::models::SubscriptionResponse;

/// A store kept in memory, following the same result rules as the database store.
struct MemoryStore {
    rows: RefCell<Vec<Row>>,
    next_id: RefCell<u128>,
}

impl MemoryStore {
    fn new() -> Self {
        MemoryStore { rows: RefCell::new(Vec::new()), next_id: RefCell::new(0x67e5_5044_10b1_426f_9247_bb68_0e5f_e0c8) }
    }
}

impl SubscriptionRepository for MemoryStore {
    fn add_subscription(
        &self,
        name: String,
        email: String,
        subscribed_at: i64,
    ) -> Result<Subscription, DomainError> {
        let id = *self.next_id.borrow();
        *self.next_id.borrow_mut() = id + 1;
        let row = Row { id, email, name, subscribed_at };
        self.rows.borrow_mut().push(row.clone());
        add_subscription_result(&row, Ok(()))
    }

    fn get_subscriptions(&mut self, email: String) -> Vec<Subscription> {
        let found: Vec<Row> =
            self.rows.borrow().iter().filter(|r| r.email == email).cloned().collect();
        subscriptions_from_rows(Ok(found))
    }

    fn remove_subscription(&mut self, id: u128) -> Result<Subscription, DomainError> {
        let before = self.rows.borrow().len();
        self.rows.borrow_mut().retain(|r| r.id != id);
        let deleted = before - self.rows.borrow().len();
        remove_subscription_result(id, Ok(deleted), 1_700_000_000)
    }
}

/// A store whose every operation fails.
struct BrokenStore;

impl SubscriptionRepository for BrokenStore {
    fn add_subscription(&self, _: String, _: String, _: i64) -> Result<Subscription, DomainError> {
        Err(DomainError::Internal("down".to_string()))
    }
    fn get_subscriptions(&mut self, _: String) -> Vec<Subscription> {
        Vec::new()
    }
    fn remove_subscription(&mut self, _: u128) -> Result<Subscription, DomainError> {
        Err(DomainError::Internal("down".to_string()))
    }
}

fn create_subscription(
    req: &CreateSubscriptionRequest,
    store: &mut dyn SubscriptionRepository,
    now: i64,
) -> (u16, SubscriptionResponse) {
    subscribe(req, store, now)
}

#[test]
fn echo_endpoint() {
    let body = echo(Params { name: Some("ydot19".to_string()) });
    assert!(body.contains("ydot19"));
    assert_eq!(body, "Hello, ydot19!");
}

#[test]
fn echo_without_name_greets_the_world() {
    assert_eq!(echo(Params { name: None }), "Hello, world!");
}

#[test]
fn health_check_is_healthy() {
    let (status, body) = health_check();
    assert_eq!(status, 200);
    assert_eq!(body, "healthy");
}

#[test]
fn subscription_test() {
    let mut store = MemoryStore::new();
    let subscription = "new_york_times".to_string();
    let req = CreateSubscriptionRequest { email: "reader@example.com".to_string(), name: subscription.clone() };
    let (status, resp) = create_subscription(&req, &mut store, 1_700_000_000);
    assert_eq!(status, 201);
    assert!(resp.message.contains(&subscription));
    assert_eq!(
        resp.message,
        "Subscription created for user: new_york_times with email: reader@example.com"
    );
}

#[test]
fn calls_carry_the_request() {
    let req = CreateSubscriptionRequest { email: "e@x.io".to_string(), name: "news".to_string() };
    assert_eq!(
        creation_call(&req, 77),
        StoreCall::Add { name: "news".to_string(), email: "e@x.io".to_string(), subscribed_at: 77 }
    );
    let req = GetSubscriptionRequest { email: "e@x.io".to_string() };
    assert_eq!(listing_call(&req), StoreCall::List { email: "e@x.io".to_string() });
    let req = RemoveSubscriptionRequest {
        subscription_id: "936da01f-9abd-4d9d-80c7-02af85c822a8".to_string(),
    };
    assert_eq!(
        removal_call(&req),
        Ok(StoreCall::Remove { id: 0x936da01f_9abd_4d9d_80c7_02af85c822a8 })
    );
}

#[test]
fn answers_from_found_subscriptions_and_statuses() {
    let req = GetSubscriptionRequest { email: "x@y.z".to_string() };
    let s = Subscription {
        email: None,
        subscription_id: "00000000-0000-0000-0000-000000000001".to_string(),
        subscription_name: "n".to_string(),
        subscribe_since: 3,
    };
    let res = get_subscriptions(req.clone(), vec![s.clone()]);
    assert_eq!(lookup_status(&res), 200);
    assert_eq!(res.unwrap().resp, vec![s]);
    let res = get_subscriptions(req, Vec::new());
    assert_eq!(lookup_status(&res), 404);

    let mut store = MemoryStore::new();
    let req = CreateSubscriptionRequest { email: "a@b.c".to_string(), name: "n".to_string() };
    create_subscription(&req, &mut store, 1);
    let id = store.rows.borrow()[0].id;
    let shown = service::adapter::repository::report_row(&store.rows.borrow()[0]).subscription_id;
    let res = unsubscribe(RemoveSubscriptionRequest { subscription_id: shown }, &mut store);
    assert_eq!(removal_status(&res), 204);
    assert!(store.rows.borrow().iter().all(|r| r.id != id));
    let res = unsubscribe(RemoveSubscriptionRequest { subscription_id: "bad".to_string() }, &mut store);
    assert_eq!(removal_status(&res), 400);
}

#[test]
fn perform_gives_the_answer_of_the_named_call() {
    let mut store = MemoryStore::new();
    let added = perform(
        &mut store,
        StoreCall::Add { name: "news".to_string(), email: "e@x.io".to_string(), subscribed_at: 9 },
    );
    assert!(matches!(added, StoreAnswer::Added(Ok(ref s)) if s.subscription_name == "news"));
    let listed = perform(&mut store, StoreCall::List { email: "e@x.io".to_string() });
    assert!(matches!(listed, StoreAnswer::Listed(ref v) if v.len() == 1));
    let listed = perform(&mut store, StoreCall::List { email: "other@x.io".to_string() });
    assert!(matches!(listed, StoreAnswer::Listed(ref v) if v.is_empty()));
    let id = store.rows.borrow()[0].id;
    let removed = perform(&mut store, StoreCall::Remove { id });
    assert!(matches!(removed, StoreAnswer::Removed(Ok(_))));
    assert!(store.rows.borrow().is_empty());
}

#[test]
fn invalid_removal_leaves_the_store_alone() {
    let mut store = MemoryStore::new();
    let req = CreateSubscriptionRequest { email: "a@b.c".to_string(), name: "n".to_string() };
    create_subscription(&req, &mut store, 1);
    let err = unsubscribe(
        RemoveSubscriptionRequest { subscription_id: "123".to_string() },
        &mut store,
    )
    .unwrap_err();
    assert_eq!(err.status_code(), 400);
    assert_eq!(store.rows.borrow().len(), 1);
}

#[test]
fn failed_subscription_is_unprocessable() {
    let req = CreateSubscriptionRequest { email: "a@b.c".to_string(), name: "n".to_string() };
    let (status, resp) = create_subscription(&req, &mut BrokenStore, 0);
    assert_eq!(status, 422);
    assert_eq!(resp.message, "Failed to add subscription");
}

#[test]
fn get_subscriptions_not_found_test() {
    let mut store = MemoryStore::new();
    let fake_email = "nobody@example.com".to_string();
    let res = lookup(GetSubscriptionRequest { email: fake_email.clone() }, &mut store);
    assert_eq!(lookup_status(&res), 404);
    let err = res.unwrap_err();
    assert_eq!(err.status_code(), 404);
    assert!(err.error_body().contains(fake_email.as_str()));
    assert_eq!(
        err,
        DomainError::NotFound("no subscriptions found for email: nobody@example.com".to_string())
    );
}

#[test]
fn remove_subscription_invalid_argument() {
    let mut store = MemoryStore::new();
    let req = RemoveSubscriptionRequest { subscription_id: "not_uuid".to_string() };
    let err = unsubscribe(req, &mut store).unwrap_err();
    assert_eq!(err.status_code(), 400);
    assert_eq!(
        err,
        DomainError::Validation {
            field: "subscription_id".to_string(),
            message: "Id must be a uuid".to_string()
        }
    );
}

#[test]
fn remove_subscription_not_found() {
    let mut store = MemoryStore::new();
    let req = RemoveSubscriptionRequest {
        subscription_id: "936da01f-9abd-4d9d-80c7-02af85c822a8".to_string(),
    };
    let err = unsubscribe(req, &mut store).unwrap_err();
    assert_eq!(err.status_code(), 404);
    assert_eq!(
        err,
        DomainError::NotFound(
            "subscription not found for id = 936da01f-9abd-4d9d-80c7-02af85c822a8".to_string()
        )
    );
}

#[test]
fn get_subscriptions_test() {
    let mut store = MemoryStore::new();
    let fake_email = "fan@example.com".to_string();
    let subscriptions = vec!["new_york_times".to_string(), "columbus dispatch".to_string()];
    for sub in subscriptions.clone() {
        let req = CreateSubscriptionRequest { email: fake_email.clone(), name: sub };
        let (status, _) = create_subscription(&req, &mut store, 1_700_000_000);
        assert_eq!(status, 201);
    }

    let res = lookup(GetSubscriptionRequest { email: fake_email.clone() }, &mut store);
    assert_eq!(lookup_status(&res), 200);
    let found = res.unwrap();
    let subs: HashMap<String, Subscription> = found
        .resp
        .into_iter()
        .map(|sub| (sub.clone().subscription_id, sub))
        .collect();
    assert_eq!(subs.len(), 2);

    let sub_id = subs.keys().next().unwrap().clone();
    let res = unsubscribe(
        RemoveSubscriptionRequest { subscription_id: sub_id.clone() },
        &mut store,
    );
    assert_eq!(removal_status(&res), 204);
    let removed = res.unwrap();
    assert_eq!(sub_id, removed.subscription.subscription_id);

    let res = lookup(GetSubscriptionRequest { email: fake_email.clone() }, &mut store);
    assert_eq!(lookup_status(&res), 200);
    let found = res.unwrap();
    let subs: HashMap<String, Subscription> = found
        .resp
        .into_iter()
        .map(|sub| (sub.clone().subscription_id, sub))
        .collect();
    assert_eq!(subs.len(), 1);
}

#[test]
fn remove_accepts_other_uuid_forms() {
    let mut store = MemoryStore::new();
    let req = CreateSubscriptionRequest { email: "a@b.c".to_string(), name: "n".to_string() };
    create_subscription(&req, &mut store, 5);
    let removed = unsubscribe(
        RemoveSubscriptionRequest {
            subscription_id: "{67E55044-10B1-426F-9247-BB680E5FE0C8}".to_string(),
        },
        &mut store,
    )
    .unwrap();
    assert_eq!(removed.subscription.subscription_id, "67e55044-10b1-426f-9247-bb680e5fe0c8");
    assert_eq!(removed.subscription.email, Some(String::new()));
    assert_eq!(removed.subscription.subscription_name, "()");
    assert_eq!(removed.subscription.subscribe_since, 1_700_000_000);
}
