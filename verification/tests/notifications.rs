use yral_billing::error::AppError;
use yral_billing::model::PurchaseToken;
use yral_billing::reconcile::{ExternalCall, Services};
use yral_billing::routes::rtdn::{
    handle_one_time_product_notification, handle_rtdn_webhook, handle_subscription_notification,
    handle_subscription_notification_at, open_envelope, process_notification, NotificationAction,
    NotificationKind, NotificationOutcome, NotificationReport, ProductEvent, WebhookVerdict,
};
use yral_billing::store::TokenStore;
use yral_billing::time::Timestamp;
use yral_billing::types::{
    DeveloperNotification, ExternalAccountIdentifiers, GooglePlaySubscriptionResponse,
    OneTimeProductNotification, PubSubData, PubSubMessage, PurchaseTokenStatus,
    SubscriptionLineItem, SubscriptionNotification, TestNotification,
};

const YEAR_2999: i64 = 32_472_144_000;

fn detail(state: &str) -> GooglePlaySubscriptionResponse {
    GooglePlaySubscriptionResponse {
        kind: "androidpublisher#subscriptionPurchaseV2".to_string(),
        start_time: None,
        region_code: None,
        subscription_state: state.to_string(),
        latest_order_id: None,
        acknowledgement_state: "ACKNOWLEDGEMENT_STATE_PENDING".to_string(),
        line_items: vec![SubscriptionLineItem {
            product_id: "pro_monthly".to_string(),
            expiry_time: Some("2999-01-01T00:00:00Z".to_string()),
            auto_renewing: Some(true),
            price_change_state: None,
        }],
        linked_purchase_token: None,
        purchase_token: "token-1".to_string(),
        external_account_identifiers: Some(ExternalAccountIdentifiers {
            external_account_id: Some("plain-account".to_string()),
            obfuscated_external_account_id: Some("account-1".to_string()),
            obfuscated_external_profile_id: None,
        }),
        subscribe_with_google_info: None,
    }
}

fn services(detail: GooglePlaySubscriptionResponse) -> Services {
    Services { detail: Ok(detail), acknowledge: Ok(()), grant: Ok(()), revoke: Ok(()) }
}

fn event(code: i32, token: &str) -> SubscriptionNotification {
    SubscriptionNotification {
        version: "1.0".to_string(),
        notification_type: code,
        purchase_token: token.to_string(),
        subscription_id: "pro_monthly".to_string(),
    }
}

fn record(
    id: &str,
    token: &str,
    status: PurchaseTokenStatus,
    expiry_seconds: i64,
) -> PurchaseToken {
    PurchaseToken::with_identity(
        id.to_string(),
        Timestamp::new(1, 0),
        "account-1".to_string(),
        token.to_string(),
        Timestamp::new(expiry_seconds, 0),
        status,
    )
}

fn store_with(records: Vec<PurchaseToken>) -> TokenStore {
    let mut store = TokenStore::new();
    for r in records {
        store.insert(r).unwrap();
    }
    store
}

#[test]
fn codes_name_their_kinds() {
    let kinds = [
        (1, NotificationKind::Recovered, NotificationAction::Renewal),
        (2, NotificationKind::Renewed, NotificationAction::Renewal),
        (3, NotificationKind::Canceled, NotificationAction::Observe),
        (4, NotificationKind::Purchased, NotificationAction::NewPurchase),
        (5, NotificationKind::OnHold, NotificationAction::Revoke),
        (6, NotificationKind::InGracePeriod, NotificationAction::Observe),
        (7, NotificationKind::Restarted, NotificationAction::Observe),
        (8, NotificationKind::PriceChangeConfirmed, NotificationAction::Observe),
        (9, NotificationKind::Deferred, NotificationAction::Observe),
        (10, NotificationKind::Paused, NotificationAction::Observe),
        (11, NotificationKind::PauseScheduleChanged, NotificationAction::Observe),
        (12, NotificationKind::Revoked, NotificationAction::Revoke),
        (13, NotificationKind::Expired, NotificationAction::Revoke),
        (0, NotificationKind::Unrecognized, NotificationAction::Anomaly),
        (14, NotificationKind::Unrecognized, NotificationAction::Anomaly),
        (-1, NotificationKind::Unrecognized, NotificationAction::Anomaly),
    ];
    for (code, kind, action) in kinds {
        assert_eq!(NotificationKind::from_code(code), kind);
        assert_eq!(kind.action(), action);
    }
}

#[test]
fn purchase_of_a_new_token_grants_and_records() {
    let mut store = TokenStore::new();
    let done = handle_subscription_notification_at(
        &mut store,
        &services(detail("SUBSCRIPTION_STATE_ACTIVE")),
        &event(4, "token-1"),
        "record-9",
        Timestamp::new(77, 3),
    );

    assert_eq!(done.result, Ok(NotificationOutcome::Granted));
    assert_eq!(
        done.calls,
        vec![
            ExternalCall::FetchDetail,
            ExternalCall::Acknowledge,
            ExternalCall::Grant { account: "account-1".to_string() },
        ]
    );
    assert_eq!(
        store.find_by_token("token-1"),
        Some(PurchaseToken {
            id: "record-9".to_string(),
            user_id: "account-1".to_string(),
            purchase_token: "token-1".to_string(),
            status: PurchaseTokenStatus::AccessGranted,
            created_at: Timestamp::new(77, 3),
            expiry_at: Timestamp::new(YEAR_2999, 0),
        })
    );
}

#[test]
fn purchase_of_a_known_token_is_a_renewal() {
    let mut store =
        store_with(vec![record("record-1", "token-1", PurchaseTokenStatus::Pending, 50)]);
    let done = handle_subscription_notification(
        &mut store,
        &services(detail("SUBSCRIPTION_STATE_IN_GRACE_PERIOD")),
        &event(4, "token-1"),
    );

    assert_eq!(done.result, Ok(NotificationOutcome::Renewed));
    assert_eq!(
        done.calls,
        vec![ExternalCall::FetchDetail, ExternalCall::Grant { account: "account-1".to_string() }]
    );
    assert_eq!(store.len(), 1);
    assert_eq!(
        store.find_by_token("token-1").unwrap(),
        record("record-1", "token-1", PurchaseTokenStatus::AccessGranted, YEAR_2999)
    );
}

#[test]
fn renewal_of_an_unknown_token_fails() {
    let mut store = TokenStore::new();
    for code in [1, 2] {
        let done = handle_subscription_notification(
            &mut store,
            &services(detail("SUBSCRIPTION_STATE_ACTIVE")),
            &event(code, "token-1"),
        );
        assert_eq!(
            done.result,
            Err(AppError::BadRequest("No record of this purchase token".to_string()))
        );
        assert_eq!(done.calls, vec![ExternalCall::FetchDetail]);
        assert_eq!(store.len(), 0);
    }
}

#[test]
fn renewal_never_moves_the_expiry_backward() {
    let later = YEAR_2999 + 1_000;
    for code in [1, 2] {
        let mut store =
            store_with(vec![record("record-1", "token-1", PurchaseTokenStatus::AccessGranted, later)]);
        let done = handle_subscription_notification(
            &mut store,
            &services(detail("SUBSCRIPTION_STATE_ACTIVE")),
            &event(code, "token-1"),
        );
        assert_eq!(done.result, Ok(NotificationOutcome::Renewed));
        assert_eq!(store.find_by_token("token-1").unwrap().expiry_at, Timestamp::new(later, 0));
    }
    for code in [1, 2] {
        let mut store =
            store_with(vec![record("record-1", "token-1", PurchaseTokenStatus::AccessGranted, 50)]);
        handle_subscription_notification(
            &mut store,
            &services(detail("SUBSCRIPTION_STATE_ACTIVE")),
            &event(code, "token-1"),
        );
        assert_eq!(
            store.find_by_token("token-1").unwrap().expiry_at,
            Timestamp::new(YEAR_2999, 0)
        );
    }
}

#[test]
fn expired_record_returns_only_through_an_active_detail() {
    let expired = || store_with(vec![record("record-1", "token-1", PurchaseTokenStatus::Expired, 50)]);

    for code in [1, 2, 4] {
        for state in ["SUBSCRIPTION_STATE_ACTIVE", "SUBSCRIPTION_STATE_IN_GRACE_PERIOD"] {
            let mut store = expired();
            handle_subscription_notification(&mut store, &services(detail(state)), &event(code, "token-1"));
            assert_eq!(
                store.find_by_token("token-1").unwrap().status,
                PurchaseTokenStatus::AccessGranted
            );
        }
        for (state, error) in [
            ("SUBSCRIPTION_STATE_EXPIRED", AppError::SubscriptionExpired),
            ("SUBSCRIPTION_STATE_CANCELED", AppError::SubscriptionCanceled),
            ("SUBSCRIPTION_STATE_ON_HOLD", AppError::SubscriptionOnHold),
            ("SUBSCRIPTION_STATE_PAUSED", AppError::SubscriptionPaused),
            ("SUBSCRIPTION_STATE_UNSPECIFIED", AppError::SubscriptionInvalidState),
        ] {
            let mut store = expired();
            let done = handle_subscription_notification(
                &mut store,
                &services(detail(state)),
                &event(code, "token-1"),
            );
            assert_eq!(done.result, Err(error));
            assert_eq!(done.calls, vec![ExternalCall::FetchDetail]);
            assert_eq!(
                store.find_by_token("token-1").unwrap(),
                record("record-1", "token-1", PurchaseTokenStatus::Expired, 50)
            );
        }
    }
    for code in [0, 3, 5, 6, 7, 8, 9, 10, 11, 12, 13, 99] {
        let mut store = expired();
        handle_subscription_notification(
            &mut store,
            &services(detail("SUBSCRIPTION_STATE_ACTIVE")),
            &event(code, "token-1"),
        );
        assert_eq!(store.find_by_token("token-1").unwrap().status, PurchaseTokenStatus::Expired);
    }
    let mut store = expired();
    handle_subscription_notification(
        &mut store,
        &services(detail("SUBSCRIPTION_STATE_ACTIVE")),
        &event(2, "token-2"),
    );
    assert_eq!(store.find_by_token("token-1").unwrap().status, PurchaseTokenStatus::Expired);
}

#[test]
fn revocation_takes_access_and_expires_the_record() {
    for code in [5, 12, 13] {
        let mut store = store_with(vec![record(
            "record-1",
            "token-1",
            PurchaseTokenStatus::AccessGranted,
            YEAR_2999,
        )]);
        let done = handle_subscription_notification(
            &mut store,
            &services(detail("SUBSCRIPTION_STATE_EXPIRED")),
            &event(code, "token-1"),
        );
        assert_eq!(done.result, Ok(NotificationOutcome::Revoked));
        assert_eq!(
            done.calls,
            vec![
                ExternalCall::FetchDetail,
                ExternalCall::Revoke { account: "account-1".to_string() },
            ]
        );
        assert_eq!(
            store.find_by_token("token-1").unwrap(),
            record("record-1", "token-1", PurchaseTokenStatus::Expired, YEAR_2999)
        );
    }
}

#[test]
fn revocation_of_an_unknown_token_asks_for_redelivery() {
    let mut store = TokenStore::new();
    let notification = DeveloperNotification {
        version: "1.0".to_string(),
        package_name: "com.example".to_string(),
        event_time_millis: "1700000000000".to_string(),
        subscription_notification: Some(event(12, "token-1")),
        one_time_product_notification: None,
        test_notification: None,
    };

    let done = handle_rtdn_webhook(
        &mut store,
        &services(detail("SUBSCRIPTION_STATE_EXPIRED")),
        Some(&notification),
    );

    assert_eq!(done.verdict, WebhookVerdict::ProcessingFailed);
    assert_eq!(done.verdict.status(), 500);
    assert_eq!(done.verdict.body(), "Processing failed");
    assert_eq!(done.calls, vec![ExternalCall::FetchDetail]);
    assert_eq!(store.len(), 0);
}

#[test]
fn failed_revocation_keeps_the_record() {
    let mut store =
        store_with(vec![record("record-1", "token-1", PurchaseTokenStatus::AccessGranted, 50)]);
    let mut answers = services(detail("SUBSCRIPTION_STATE_EXPIRED"));
    answers.revoke = Err(AppError::ServiceAccessFailed("ledger is down".to_string()));

    let done = handle_subscription_notification(&mut store, &answers, &event(13, "token-1"));

    assert_eq!(done.result, Err(AppError::ServiceAccessFailed("ledger is down".to_string())));
    assert_eq!(
        store.find_by_token("token-1").unwrap(),
        record("record-1", "token-1", PurchaseTokenStatus::AccessGranted, 50)
    );
}

#[test]
fn superseded_token_expires_whatever_becomes_of_the_event() {
    let mut linked_detail = detail("SUBSCRIPTION_STATE_ACTIVE");
    linked_detail.linked_purchase_token = Some("token-0".to_string());
    let old = || record("record-0", "token-0", PurchaseTokenStatus::AccessGranted, YEAR_2999);

    for code in [0, 1, 2, 3, 4, 5, 6, 7, 8, 9, 10, 11, 12, 13, 99] {
        let mut store = store_with(vec![old()]);
        handle_subscription_notification(
            &mut store,
            &services(linked_detail.clone()),
            &event(code, "token-1"),
        );
        assert_eq!(
            store.find_by_token("token-0").unwrap(),
            record("record-0", "token-0", PurchaseTokenStatus::Expired, YEAR_2999),
            "{code}"
        );
    }

    let mut store = store_with(vec![old()]);
    let mut failing = services(linked_detail.clone());
    failing.grant = Err(AppError::ServiceAccessFailed("ledger is down".to_string()));
    let done = handle_subscription_notification(&mut store, &failing, &event(4, "token-1"));
    assert!(done.result.is_err());
    assert_eq!(store.find_by_token("token-0").unwrap().status, PurchaseTokenStatus::Expired);
    assert!(store.find_by_token("token-1").is_none());

    let mut store = TokenStore::new();
    handle_subscription_notification(&mut store, &services(linked_detail), &event(4, "token-1"));
    assert!(store.find_by_token("token-0").is_none());
    assert_eq!(store.len(), 1);
}

#[test]
fn informational_events_change_nothing() {
    for (code, outcome) in [
        (3, NotificationOutcome::Observed),
        (6, NotificationOutcome::Observed),
        (7, NotificationOutcome::Observed),
        (8, NotificationOutcome::Observed),
        (9, NotificationOutcome::Observed),
        (10, NotificationOutcome::Observed),
        (11, NotificationOutcome::Observed),
        (42, NotificationOutcome::Unrecognized),
    ] {
        let mut store =
            store_with(vec![record("record-1", "token-1", PurchaseTokenStatus::AccessGranted, 50)]);
        let done = handle_subscription_notification(
            &mut store,
            &services(detail("SUBSCRIPTION_STATE_CANCELED")),
            &event(code, "token-1"),
        );
        assert_eq!(done.result, Ok(outcome));
        assert_eq!(done.calls, vec![ExternalCall::FetchDetail]);
        assert_eq!(
            store.find_by_token("token-1").unwrap(),
            record("record-1", "token-1", PurchaseTokenStatus::AccessGranted, 50)
        );
    }
}

#[test]
fn replayed_event_converges() {
    for code in [1, 2, 4, 5, 12, 13] {
        let mut store =
            store_with(vec![record("record-1", "token-1", PurchaseTokenStatus::AccessGranted, 50)]);
        let answers = services(detail("SUBSCRIPTION_STATE_ACTIVE"));
        handle_subscription_notification(&mut store, &answers, &event(code, "token-1"));
        let once = store.find_by_token("token-1");
        handle_subscription_notification(&mut store, &answers, &event(code, "token-1"));
        assert_eq!(store.find_by_token("token-1"), once);
        assert_eq!(store.len(), 1);
    }
    let mut store = TokenStore::new();
    let answers = services(detail("SUBSCRIPTION_STATE_ACTIVE"));
    let first = handle_subscription_notification(&mut store, &answers, &event(4, "token-1"));
    let once = store.find_by_token("token-1");
    let second = handle_subscription_notification(&mut store, &answers, &event(4, "token-1"));
    assert_eq!(first.result, Ok(NotificationOutcome::Granted));
    assert_eq!(second.result, Ok(NotificationOutcome::Renewed));
    assert_eq!(store.find_by_token("token-1"), once);
}

#[test]
fn provider_failure_stops_the_event() {
    let mut store =
        store_with(vec![record("record-1", "token-1", PurchaseTokenStatus::AccessGranted, 50)]);
    let mut answers = services(detail("SUBSCRIPTION_STATE_ACTIVE"));
    answers.detail = Err(AppError::GooglePlayApi("API returned error status: 410 Gone".to_string()));

    let done = handle_subscription_notification(&mut store, &answers, &event(13, "token-1"));

    assert_eq!(
        done.result,
        Err(AppError::GooglePlayApi("API returned error status: 410 Gone".to_string()))
    );
    assert_eq!(done.calls, vec![ExternalCall::FetchDetail]);
    assert_eq!(
        store.find_by_token("token-1").unwrap(),
        record("record-1", "token-1", PurchaseTokenStatus::AccessGranted, 50)
    );
}

#[test]
fn parts_of_a_notification_are_reported() {
    let mut store = TokenStore::new();
    let notification = DeveloperNotification {
        version: "1.0".to_string(),
        package_name: "com.example".to_string(),
        event_time_millis: "1700000000000".to_string(),
        subscription_notification: None,
        one_time_product_notification: Some(OneTimeProductNotification {
            version: "1.0".to_string(),
            notification_type: 2,
            purchase_token: "token-1".to_string(),
            sku: "coins".to_string(),
        }),
        test_notification: Some(TestNotification { version: "1.0".to_string() }),
    };

    let done = process_notification(
        &mut store,
        &services(detail("SUBSCRIPTION_STATE_ACTIVE")),
        &notification,
    );

    assert_eq!(
        done.result,
        Ok(NotificationReport {
            subscription: None,
            one_time_product: Some(ProductEvent::Canceled),
            test: true,
        })
    );
    assert!(done.calls.is_empty());
    assert_eq!(store.len(), 0);

    let answered = handle_rtdn_webhook(
        &mut store,
        &services(detail("SUBSCRIPTION_STATE_ACTIVE")),
        Some(&notification),
    );
    assert_eq!(answered.verdict, WebhookVerdict::Processed);
    assert_eq!(answered.verdict.status(), 200);
    assert_eq!(answered.verdict.body(), "OK");
}

#[test]
fn one_time_product_codes() {
    let product = |code| OneTimeProductNotification {
        version: "1.0".to_string(),
        notification_type: code,
        purchase_token: "token-1".to_string(),
        sku: "coins".to_string(),
    };
    assert_eq!(handle_one_time_product_notification(&product(1)), ProductEvent::Purchased);
    assert_eq!(handle_one_time_product_notification(&product(2)), ProductEvent::Canceled);
    assert_eq!(handle_one_time_product_notification(&product(3)), ProductEvent::Unrecognized);
}

fn envelope(data: &str) -> PubSubMessage {
    PubSubMessage {
        message: PubSubData {
            data: data.to_string(),
            message_id: "1".to_string(),
            publish_time: "2024-01-01T00:00:00Z".to_string(),
        },
    }
}

#[test]
fn envelope_is_decoded() {
    assert_eq!(open_envelope(&envelope("aGVsbG8=")), Ok("hello".to_string()));
    assert_eq!(
        open_envelope(&envelope("eyJ2ZXJzaW9uIjoiMS4wIn0=")),
        Ok("{\"version\":\"1.0\"}".to_string())
    );
    assert_eq!(open_envelope(&envelope("")), Ok(String::new()));
    assert_eq!(open_envelope(&envelope("4pyTIMOgIGxhIG1vZGU=")), Ok("✓ à la mode".to_string()));
}

#[test]
fn malformed_envelope_is_turned_down() {
    assert_eq!(open_envelope(&envelope("not base64!")), Err(WebhookVerdict::InvalidBase64));
    assert_eq!(open_envelope(&envelope("aGVsbG8")), Err(WebhookVerdict::InvalidBase64));
    assert_eq!(open_envelope(&envelope("/w==")), Err(WebhookVerdict::InvalidUtf8));
    assert_eq!(WebhookVerdict::InvalidBase64.status(), 400);
    assert_eq!(WebhookVerdict::InvalidBase64.body(), "Invalid base64 data");
    assert_eq!(WebhookVerdict::InvalidUtf8.status(), 400);
    assert_eq!(WebhookVerdict::InvalidUtf8.body(), "Invalid UTF-8 data");

    let mut store = TokenStore::new();
    let done = handle_rtdn_webhook(&mut store, &services(detail("SUBSCRIPTION_STATE_ACTIVE")), None);
    assert_eq!(done.verdict, WebhookVerdict::InvalidFormat);
    assert_eq!(done.verdict.status(), 400);
    assert_eq!(done.verdict.body(), "Invalid notification format");
    assert!(done.calls.is_empty());
}
