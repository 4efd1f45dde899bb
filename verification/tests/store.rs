use yral_billing::model::PurchaseToken;
use yral_billing::store::{StoreError, TokenStore};
use yral_billing::time::Timestamp;
use yral_billing::types::PurchaseTokenStatus;

fn record(id: &str, user: &str, token: &str) -> PurchaseToken {
    PurchaseToken::with_identity(
        id.to_string(),
        Timestamp::new(1, 2),
        user.to_string(),
        token.to_string(),
        Timestamp::new(100, 0),
        PurchaseTokenStatus::Pending,
    )
}

#[test]
fn new_store_is_empty() {
    let store = TokenStore::new();
    assert_eq!(store.len(), 0);
    assert_eq!(store.find_by_token("token-1"), None);
}

#[test]
fn inserted_record_is_found_by_its_token() {
    let mut store = TokenStore::new();
    assert_eq!(store.insert(record("a", "alice", "token-1")), Ok(()));
    assert_eq!(store.insert(record("b", "bob", "token-2")), Ok(()));

    assert_eq!(store.len(), 2);
    assert_eq!(store.find_by_token("token-1"), Some(record("a", "alice", "token-1")));
    assert_eq!(store.find_by_token("token-2"), Some(record("b", "bob", "token-2")));
    assert_eq!(store.find_by_token("token-3"), None);
    assert_eq!(store.find_by_token("Token-1"), None);
}

#[test]
fn first_writer_of_a_token_wins() {
    let mut store = TokenStore::new();
    store.insert(record("a", "alice", "token-1")).unwrap();

    assert_eq!(store.insert(record("b", "bob", "token-1")), Err(StoreError::Conflict));
    assert_eq!(store.insert(record("a", "bob", "token-2")), Err(StoreError::Conflict));

    assert_eq!(store.len(), 1);
    assert_eq!(store.find_by_token("token-1"), Some(record("a", "alice", "token-1")));
    assert_eq!(store.find_by_token("token-2"), None);
}

#[test]
fn update_leaves_fields_without_a_value_untouched() {
    let mut store = TokenStore::new();
    store.insert(record("a", "alice", "token-1")).unwrap();
    store.insert(record("b", "bob", "token-2")).unwrap();

    assert!(store.update_status_and_expiry("a", Some(PurchaseTokenStatus::Expired), None));
    let mut expected = record("a", "alice", "token-1");
    expected.status = PurchaseTokenStatus::Expired;
    assert_eq!(store.find_by_token("token-1"), Some(expected.clone()));

    assert!(store.update_status_and_expiry("a", None, Some(Timestamp::new(7, 9))));
    expected.expiry_at = Timestamp::new(7, 9);
    assert_eq!(store.find_by_token("token-1"), Some(expected.clone()));

    assert!(store.update_status_and_expiry("a", None, None));
    assert_eq!(store.find_by_token("token-1"), Some(expected));
    assert_eq!(store.find_by_token("token-2"), Some(record("b", "bob", "token-2")));

    assert!(!store.update_status_and_expiry("c", Some(PurchaseTokenStatus::Expired), None));
    assert_eq!(store.len(), 2);
}

#[test]
fn refresh_keeps_the_later_expiry() {
    let mut store = TokenStore::new();
    store.insert(record("a", "alice", "token-1")).unwrap();

    assert!(store.refresh("a", Timestamp::new(99, 999_999_999)));
    let found = store.find_by_token("token-1").unwrap();
    assert_eq!(found.status, PurchaseTokenStatus::AccessGranted);
    assert_eq!(found.expiry_at, Timestamp::new(100, 0));

    assert!(store.refresh("a", Timestamp::new(100, 1)));
    assert_eq!(store.find_by_token("token-1").unwrap().expiry_at, Timestamp::new(100, 1));

    assert!(!store.refresh("b", Timestamp::new(200, 0)));
}

#[test]
fn new_record_gets_an_identifier_and_a_time() {
    let first = PurchaseToken::new(
        "alice".to_string(),
        "token-1".to_string(),
        Timestamp::new(100, 0),
        PurchaseTokenStatus::AccessGranted,
    );
    let second = PurchaseToken::new(
        "alice".to_string(),
        "token-1".to_string(),
        Timestamp::new(100, 0),
        PurchaseTokenStatus::AccessGranted,
    );

    assert_eq!(first.user_id, "alice");
    assert_eq!(first.purchase_token, "token-1");
    assert_eq!(first.expiry_at, Timestamp::new(100, 0));
    assert_eq!(first.status, PurchaseTokenStatus::AccessGranted);
    assert_eq!(first.id.len(), 36);
    assert_eq!(first.id.matches('-').count(), 4);
    assert_ne!(first.id, second.id);
    assert!(first.created_at.seconds > 1_700_000_000);
    assert!(first.created_at.nanos < 1_000_000_000);
    assert_eq!(first.duplicate(), first);
}

#[test]
fn timestamps_are_ordered_by_seconds_then_nanos() {
    let t = Timestamp::new;
    assert!(t(2, 0).after(&t(1, 999_999_999)));
    assert!(t(1, 1).after(&t(1, 0)));
    assert!(!t(1, 0).after(&t(1, 0)));
    assert!(!t(1, 0).after(&t(1, 1)));
    assert!(t(2, 0).after(&t(1, 1_500_000_000)));
    assert!(t(-1, 0).after(&t(-2, 5)));
    assert_eq!(t(1, 5).latest(t(1, 6)), t(1, 6));
    assert_eq!(t(1, 6).latest(t(1, 5)), t(1, 6));
    assert_eq!(t(3, 0).latest(t(3, 0)), t(3, 0));
    assert_eq!(t(i64::MIN, 0).latest(t(i64::MAX, u32::MAX)), t(i64::MAX, u32::MAX));
}
