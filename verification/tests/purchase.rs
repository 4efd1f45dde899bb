use yral_billing::error::{AppError, HttpReply};
use yral_billing::model::PurchaseToken;
use yral_billing::reconcile::{ExternalCall, Services};
use yral_billing::routes::purchase::{
    check_existing_token, process_purchase_token, process_purchase_token_at, verify_purchase,
    TokenCheck, VerifyOutcome,
};
use yral_billing::store::TokenStore;
use yral_billing::time::Timestamp;
use yral_billing::types::{
    ExternalAccountIdentifiers, GooglePlaySubscriptionResponse, PurchaseTokenStatus,
    SubscriptionLineItem, VerifyRequest,
};

fn detail_for(product: &str, token: &str) -> GooglePlaySubscriptionResponse {
    GooglePlaySubscriptionResponse {
        kind: "androidpublisher#subscriptionPurchaseV2".to_string(),
        start_time: Some("2023-01-01T00:00:00.000Z".to_string()),
        region_code: Some("US".to_string()),
        subscription_state: "SUBSCRIPTION_STATE_ACTIVE".to_string(),
        latest_order_id: Some("GPA.0000-0000-0000-00000".to_string()),
        acknowledgement_state: "ACKNOWLEDGEMENT_STATE_PENDING".to_string(),
        line_items: vec![SubscriptionLineItem {
            product_id: product.to_string(),
            expiry_time: Some("2999-01-01T00:00:00.000Z".to_string()),
            auto_renewing: Some(true),
            price_change_state: Some("PRICE_CHANGE_STATE_APPLIED".to_string()),
        }],
        linked_purchase_token: None,
        purchase_token: token.to_string(),
        external_account_identifiers: Some(ExternalAccountIdentifiers {
            external_account_id: None,
            obfuscated_external_account_id: Some("2vxsx-fae".to_string()),
            obfuscated_external_profile_id: None,
        }),
        subscribe_with_google_info: None,
    }
}

fn services_with(detail: GooglePlaySubscriptionResponse) -> Services {
    Services { detail: Ok(detail), acknowledge: Ok(()), grant: Ok(()), revoke: Ok(()) }
}

fn unreachable_services() -> Services {
    Services {
        detail: Err(AppError::NetworkError("provider must not be asked".to_string())),
        acknowledge: Err(AppError::AcknowledgmentFailed),
        grant: Err(AppError::ServiceAccessFailed("ledger must not be asked".to_string())),
        revoke: Err(AppError::ServiceAccessFailed("ledger must not be asked".to_string())),
    }
}

fn in_thirty_days() -> Timestamp {
    let expiry_at = (chrono::Utc::now() + chrono::Duration::days(30)).naive_utc();
    Timestamp::new(expiry_at.and_utc().timestamp(), expiry_at.and_utc().timestamp_subsec_nanos())
}

fn body_text(reply: &HttpReply) -> String {
    format!("{:?} {:?}", reply.body.msg, reply.body.error)
}

#[test]
fn test_verify_purchase_route() {
    let mut store = TokenStore::new();
    let payload = VerifyRequest {
        user_id: format!("test_user_{}", uuid::Uuid::new_v4()),
        package_name: "com.example".to_string(),
        product_id: "test_product".to_string(),
        purchase_token: format!("test_token_{}", uuid::Uuid::new_v4()),
    };
    let services = services_with(detail_for("test_product", &payload.purchase_token));

    let done = verify_purchase(&mut store, &services, &payload);

    assert_eq!(done.reply.status, 200);
    let stored = store.find_by_token(&payload.purchase_token).unwrap();
    assert_eq!(stored.user_id, payload.user_id);
    assert_eq!(stored.status, PurchaseTokenStatus::AccessGranted);
}

#[test]
fn test_purchase_token_reuse_prevention() {
    let mut store = TokenStore::new();
    let shared_token = format!("shared_token_{}", uuid::Uuid::new_v4());
    let new_token = PurchaseToken::new(
        "user_1".to_string(),
        shared_token.clone(),
        in_thirty_days(),
        PurchaseTokenStatus::AccessGranted,
    );
    let _ = store.insert(new_token);

    let payload_user2 = VerifyRequest {
        user_id: "user_2".to_string(),
        package_name: "com.example".to_string(),
        product_id: "test_product".to_string(),
        purchase_token: shared_token.clone(),
    };
    let services = services_with(detail_for("test_product", &shared_token));

    let done = verify_purchase(&mut store, &services, &payload_user2);
    assert_eq!(done.reply.status, 400);

    let body_str = body_text(&done.reply);
    assert!(body_str.contains("Purchase token already used by different user"));
}

#[test]
fn test_same_user_same_token_allowed() {
    let mut store = TokenStore::new();
    let token = format!("user_token_{}", uuid::Uuid::new_v4());
    let user_id = format!("user_{}", uuid::Uuid::new_v4());
    let new_token = PurchaseToken::new(
        user_id.clone(),
        token.clone(),
        in_thirty_days(),
        PurchaseTokenStatus::AccessGranted,
    );
    let _ = store.insert(new_token);

    let payload = VerifyRequest {
        user_id: user_id.clone(),
        package_name: "com.example".to_string(),
        product_id: "test_product".to_string(),
        purchase_token: token.clone(),
    };
    let services = services_with(detail_for("test_product", &token));

    let done = verify_purchase(&mut store, &services, &payload);
    assert_eq!(done.reply.status, 200);

    let body_str = body_text(&done.reply);
    assert_eq!(
        body_str.contains("Purchase already verified and access granted"),
        true
    );
}

fn request(user: &str, token: &str) -> VerifyRequest {
    VerifyRequest {
        user_id: user.to_string(),
        package_name: "com.example".to_string(),
        product_id: "test_product".to_string(),
        purchase_token: token.to_string(),
    }
}

#[test]
fn reverification_makes_no_outside_call() {
    let mut store = TokenStore::new();
    store
        .insert(PurchaseToken::new(
            "alice".to_string(),
            "token-1".to_string(),
            in_thirty_days(),
            PurchaseTokenStatus::AccessGranted,
        ))
        .unwrap();
    let before = store.find_by_token("token-1").unwrap();
    let services = unreachable_services();

    let first = process_purchase_token(&mut store, &services, &request("alice", "token-1"));
    let second = process_purchase_token(&mut store, &services, &request("alice", "token-1"));

    assert_eq!(first.result, Ok(VerifyOutcome::AlreadyGranted));
    assert_eq!(second.result, Ok(VerifyOutcome::AlreadyGranted));
    assert!(first.calls.is_empty());
    assert!(second.calls.is_empty());
    assert_eq!(store.len(), 1);
    assert_eq!(store.find_by_token("token-1").unwrap(), before);
}

#[test]
fn other_user_is_refused_whatever_the_provider_says() {
    let mut store = TokenStore::new();
    store
        .insert(PurchaseToken::new(
            "alice".to_string(),
            "token-1".to_string(),
            Timestamp::new(10, 0),
            PurchaseTokenStatus::Expired,
        ))
        .unwrap();
    let before = store.find_by_token("token-1").unwrap();

    for services in [services_with(detail_for("test_product", "token-1")), unreachable_services()] {
        let done = process_purchase_token(&mut store, &services, &request("bob", "token-1"));
        assert_eq!(done.result, Err(AppError::TokenAlreadyUsed));
        assert!(done.calls.is_empty());
    }
    assert_eq!(store.find_by_token("token-1").unwrap(), before);
}

#[test]
fn product_missing_from_line_items_is_refused() {
    let mut store = TokenStore::new();
    let services = services_with(detail_for("another_product", "token-1"));

    let done = process_purchase_token(&mut store, &services, &request("alice", "token-1"));

    assert_eq!(done.result, Err(AppError::SubscriptionInvalidLineItems));
    assert_eq!(done.calls, vec![ExternalCall::FetchDetail]);
    assert_eq!(store.len(), 0);
    assert!(store.find_by_token("token-1").is_none());
}

#[test]
fn two_requests_for_a_new_token_grant_once() {
    let mut store = TokenStore::new();
    let services = services_with(detail_for("test_product", "token-1"));

    let first = verify_purchase(&mut store, &services, &request("alice", "token-1"));
    let second = verify_purchase(&mut store, &services, &request("alice", "token-1"));

    assert_eq!(first.reply.status, 200);
    assert_eq!(second.reply.status, 200);
    assert!(first.reply.body.success);
    assert!(second.reply.body.success);
    let grants = first
        .calls
        .iter()
        .chain(second.calls.iter())
        .filter(|call| matches!(call, ExternalCall::Grant { .. }))
        .count();
    assert_eq!(grants, 1);
    assert_eq!(store.len(), 1);
}

#[test]
fn side_effects_come_in_order() {
    let mut store = TokenStore::new();
    let services = services_with(detail_for("test_product", "token-1"));

    let done = process_purchase_token_at(
        &mut store,
        &services,
        &request("alice", "token-1"),
        Timestamp::new(1_700_000_000, 0),
        "11111111-2222-4333-8444-555555555555",
        Timestamp::new(1_700_000_000, 5),
    );

    assert_eq!(done.result, Ok(VerifyOutcome::Granted));
    assert_eq!(
        done.calls,
        vec![
            ExternalCall::FetchDetail,
            ExternalCall::Acknowledge,
            ExternalCall::Grant { account: "2vxsx-fae".to_string() },
        ]
    );
    assert_eq!(
        store.find_by_token("token-1"),
        Some(PurchaseToken {
            id: "11111111-2222-4333-8444-555555555555".to_string(),
            user_id: "alice".to_string(),
            purchase_token: "token-1".to_string(),
            status: PurchaseTokenStatus::AccessGranted,
            created_at: Timestamp::new(1_700_000_000, 5),
            expiry_at: Timestamp::new(32_472_144_000, 0),
        })
    );
}

#[test]
fn acknowledged_purchase_is_not_acknowledged_again() {
    let mut store = TokenStore::new();
    let mut detail = detail_for("test_product", "token-1");
    detail.acknowledgement_state = "ACKNOWLEDGEMENT_STATE_ACKNOWLEDGED".to_string();
    let services = services_with(detail);

    let done = process_purchase_token(&mut store, &services, &request("alice", "token-1"));

    assert_eq!(done.result, Ok(VerifyOutcome::Granted));
    assert_eq!(
        done.calls,
        vec![ExternalCall::FetchDetail, ExternalCall::Grant { account: "2vxsx-fae".to_string() }]
    );
}

#[test]
fn failed_grant_writes_no_record() {
    let mut store = TokenStore::new();
    let mut services = services_with(detail_for("test_product", "token-1"));
    services.grant = Err(AppError::ServiceAccessFailed("ledger is down".to_string()));

    let done = process_purchase_token(&mut store, &services, &request("alice", "token-1"));

    assert_eq!(done.result, Err(AppError::ServiceAccessFailed("ledger is down".to_string())));
    assert_eq!(done.calls.len(), 3);
    assert_eq!(store.len(), 0);
}

#[test]
fn failed_acknowledgment_grants_nothing() {
    let mut store = TokenStore::new();
    let mut services = services_with(detail_for("test_product", "token-1"));
    services.acknowledge = Err(AppError::GooglePlayApi("Acknowledgment failed: no".to_string()));

    let done = process_purchase_token(&mut store, &services, &request("alice", "token-1"));

    assert_eq!(done.result, Err(AppError::GooglePlayApi("Acknowledgment failed: no".to_string())));
    assert_eq!(done.calls, vec![ExternalCall::FetchDetail, ExternalCall::Acknowledge]);
    assert_eq!(store.len(), 0);
}

#[test]
fn provider_failure_is_passed_on() {
    let mut store = TokenStore::new();
    let mut services = services_with(detail_for("test_product", "token-1"));
    services.detail = Err(AppError::NetworkError("timed out".to_string()));

    let done = verify_purchase(&mut store, &services, &request("alice", "token-1"));

    assert_eq!(done.reply.status, 502);
    assert_eq!(done.reply.body.error, Some("Network error: timed out".to_string()));
    assert_eq!(done.calls, vec![ExternalCall::FetchDetail]);
    assert_eq!(store.len(), 0);
}

#[test]
fn each_state_gets_its_answer() {
    let cases = [
        ("SUBSCRIPTION_STATE_ACTIVE", 200, None),
        ("SUBSCRIPTION_STATE_IN_GRACE_PERIOD", 200, None),
        ("SUBSCRIPTION_STATE_CANCELED", 400, Some("Subscription has been canceled")),
        ("SUBSCRIPTION_STATE_ON_HOLD", 202, Some("Subscription is on hold")),
        ("SUBSCRIPTION_STATE_PAUSED", 202, Some("Subscription is paused by user")),
        ("SUBSCRIPTION_STATE_EXPIRED", 400, Some("Subscription has expired")),
        ("SUBSCRIPTION_STATE_PENDING", 400, Some("Unknown or invalid subscription state")),
        ("", 400, Some("Unknown or invalid subscription state")),
    ];
    for (state, status, error) in cases {
        let mut store = TokenStore::new();
        let mut detail = detail_for("test_product", "token-1");
        detail.subscription_state = state.to_string();
        let done = verify_purchase(&mut store, &services_with(detail), &request("alice", "token-1"));
        assert_eq!(done.reply.status, status, "{state}");
        assert_eq!(done.reply.body.error, error.map(|text| text.to_string()), "{state}");
        assert_eq!(store.len(), if status == 200 { 1 } else { 0 }, "{state}");
    }
}

#[test]
fn missing_account_fails_after_the_acknowledgment() {
    let mut store = TokenStore::new();
    let mut detail = detail_for("test_product", "token-1");
    detail.external_account_identifiers = None;

    let done =
        process_purchase_token(&mut store, &services_with(detail), &request("alice", "token-1"));

    assert_eq!(done.result, Err(AppError::ExternalAccountIdentifiersMissing));
    assert_eq!(done.calls, vec![ExternalCall::FetchDetail, ExternalCall::Acknowledge]);
    assert_eq!(store.len(), 0);
}

#[test]
fn unreadable_expiry_fails_after_the_grant() {
    let mut store = TokenStore::new();
    let mut detail = detail_for("test_product", "token-1");
    detail.line_items[0].expiry_time = Some("next year".to_string());

    let done =
        process_purchase_token(&mut store, &services_with(detail), &request("alice", "token-1"));

    assert_eq!(done.result, Err(AppError::SubscriptionInvalidLineItems));
    assert_eq!(done.calls.len(), 3);
    assert_eq!(store.len(), 0);
}

#[test]
fn stale_record_of_the_same_user_is_refreshed() {
    let mut store = TokenStore::new();
    store
        .insert(PurchaseToken::with_identity(
            "record-1".to_string(),
            Timestamp::new(5, 0),
            "alice".to_string(),
            "token-1".to_string(),
            Timestamp::new(10, 0),
            PurchaseTokenStatus::Expired,
        ))
        .unwrap();
    let services = services_with(detail_for("test_product", "token-1"));

    let done = process_purchase_token(&mut store, &services, &request("alice", "token-1"));

    assert_eq!(done.result, Ok(VerifyOutcome::Granted));
    assert_eq!(store.len(), 1);
    assert_eq!(
        store.find_by_token("token-1"),
        Some(PurchaseToken {
            id: "record-1".to_string(),
            user_id: "alice".to_string(),
            purchase_token: "token-1".to_string(),
            status: PurchaseTokenStatus::AccessGranted,
            created_at: Timestamp::new(5, 0),
            expiry_at: Timestamp::new(32_472_144_000, 0),
        })
    );
}

#[test]
fn incomplete_request_is_turned_down() {
    let mut store = TokenStore::new();
    let services = services_with(detail_for("test_product", "token-1"));
    let mut payload = request("alice", "token-1");
    payload.product_id = String::new();

    let done = verify_purchase(&mut store, &services, &payload);

    assert_eq!(done.reply.status, 400);
    assert_eq!(
        done.reply.body.error,
        Some("Bad request: All fields of the request must be given".to_string())
    );
    assert!(done.calls.is_empty());
    assert_eq!(store.len(), 0);
}

#[test]
fn record_decides_before_the_provider() {
    let record = PurchaseToken::with_identity(
        "record-1".to_string(),
        Timestamp::new(5, 0),
        "alice".to_string(),
        "token-1".to_string(),
        Timestamp::new(100, 7),
        PurchaseTokenStatus::AccessGranted,
    );
    let now = |seconds, nanos| Timestamp::new(seconds, nanos);

    assert_eq!(check_existing_token(None, "alice", now(0, 0)), TokenCheck::NeedsProvider);
    assert_eq!(check_existing_token(Some(&record), "bob", now(0, 0)), TokenCheck::UsedByOther);
    assert_eq!(
        check_existing_token(Some(&record), "alice", now(100, 6)),
        TokenCheck::AlreadyGranted
    );
    assert_eq!(
        check_existing_token(Some(&record), "alice", now(100, 7)),
        TokenCheck::NeedsProvider
    );
    assert_eq!(
        check_existing_token(Some(&record), "alice", now(101, 0)),
        TokenCheck::NeedsProvider
    );

    let mut pending = record.clone();
    pending.status = PurchaseTokenStatus::Pending;
    assert_eq!(
        check_existing_token(Some(&pending), "alice", now(0, 0)),
        TokenCheck::NeedsProvider
    );
}
