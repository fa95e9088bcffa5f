use service::adapter::models::Subscription as Row;
use service::adapter::repository::{
    add_subscription_result, remove_subscription_result, report_row, subscriptions_from_rows,
    StoreError,
};
use service::domain::errors::DomainError;
use service::adapter::repository::StoreCall;
use service::routes::subscriptions::{id_or_validation_error, removal_call};
use service::port::models::RemoveSubscriptionRequest;

fn row(id: u128, email: &str, name: &str, at: i64) -> Row {
    Row { id, email: email.to_string(), name: name.to_string(), subscribed_at: at }
}

#[test]
fn report_row_shows_hyphenated_id_and_no_email() {
    let s = report_row(&row(42, "a@b.c", "Ydot19", 123));
    assert_eq!(s.email, None);
    assert_eq!(s.subscription_id, "00000000-0000-0000-0000-00000000002a");
    assert_eq!(s.subscription_name, "Ydot19");
    assert_eq!(s.subscribe_since, 123);
    let s = report_row(&row(0x936da01f_9abd_4d9d_80c7_02af85c822a8, "", "", 0));
    assert_eq!(s.subscription_id, "936da01f-9abd-4d9d-80c7-02af85c822a8");
}

#[test]
fn add_result_for_each_outcome() {
    let r = row(1, "ydot19@github.com", "Ydot19", 7);
    let ok = add_subscription_result(&r, Ok(())).unwrap();
    assert_eq!(ok.subscription_name, "Ydot19");
    assert_eq!(
        add_subscription_result(&r, Err(StoreError::Connection("timeout".to_string()))),
        Err(DomainError::Internal(
            "Database Error! Failed to get connection (Err=timeout)".to_string()
        ))
    );
    assert_eq!(
        add_subscription_result(&r, Err(StoreError::Query("duplicate".to_string()))),
        Err(DomainError::Internal(
            "failed to store new subscription (Error = duplicate)".to_string()
        ))
    );
}

#[test]
fn rows_are_reported_in_order_and_failures_give_nothing() {
    let rows = vec![row(1, "e", "a", 1), row(2, "e", "b", 2)];
    let out = subscriptions_from_rows(Ok(rows));
    assert_eq!(out.len(), 2);
    assert_eq!(out[0].subscription_name, "a");
    assert_eq!(out[1].subscription_id, "00000000-0000-0000-0000-000000000002");
    assert!(subscriptions_from_rows(Err(StoreError::Connection("x".to_string()))).is_empty());
    assert!(subscriptions_from_rows(Err(StoreError::Query("x".to_string()))).is_empty());
}

#[test]
fn remove_result_for_each_outcome() {
    let id: u128 = 0x936da01f_9abd_4d9d_80c7_02af85c822a8;
    assert!(matches!(
        remove_subscription_result(id, Ok(0), 9),
        Err(DomainError::NotFound(_))
    ));
    assert_eq!(
        remove_subscription_result(id, Ok(0), 9),
        Err(DomainError::NotFound(
            "subscription not found for id = 936da01f-9abd-4d9d-80c7-02af85c822a8".to_string()
        ))
    );
    let removed = remove_subscription_result(id, Ok(1), 9).unwrap();
    assert_eq!(removed.email, Some(String::new()));
    assert_eq!(removed.subscription_id, "936da01f-9abd-4d9d-80c7-02af85c822a8");
    assert_eq!(removed.subscription_name, "()");
    assert_eq!(removed.subscribe_since, 9);
    assert_eq!(
        remove_subscription_result(id, Err(StoreError::Connection("refused".to_string())), 9),
        Err(DomainError::Internal(
            "Database error. Failed to get connection `(Err=refused)`".to_string()
        ))
    );
    assert_eq!(
        remove_subscription_result(id, Err(StoreError::Query("syntax".to_string())), 9),
        Err(DomainError::Internal("Database error: syntax".to_string()))
    );
}

#[test]
fn requested_id_reads_printed_ids_back() {
    for id in [0u128, 1, 42, 0x936da01f_9abd_4d9d_80c7_02af85c822a8, u128::MAX] {
        let shown = report_row(&row(id, "", "", 0)).subscription_id;
        let req = RemoveSubscriptionRequest { subscription_id: shown };
        assert_eq!(removal_call(&req), Ok(StoreCall::Remove { id }));
    }
    let req = RemoveSubscriptionRequest {
        subscription_id: "67e55044-10b1-426f-9247-bb680e5fe0c8".to_string(),
    };
    assert_eq!(
        removal_call(&req),
        Ok(StoreCall::Remove { id: 0x67e55044_10b1_426f_9247_bb680e5fe0c8 })
    );
    let req = RemoveSubscriptionRequest { subscription_id: "not_uuid".to_string() };
    assert!(matches!(
        removal_call(&req),
        Err(DomainError::Validation { .. })
    ));
}

#[test]
fn id_or_validation_error_passes_ids_and_refuses_none() {
    assert_eq!(id_or_validation_error(Some(5)), Ok(5));
    assert_eq!(
        id_or_validation_error(None),
        Err(DomainError::Validation {
            field: "subscription_id".to_string(),
            message: "Id must be a uuid".to_string()
        })
    );
}
