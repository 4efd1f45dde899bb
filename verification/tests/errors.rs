use yral_billing::error::{AppError, ErrorKind};
use yral_billing::routes::purchase_token_helpers::{
    verify_subcription_response_for_active_status, SubscriptionState, TransitionDecision,
};
use yral_billing::types::{ApiResponse, GooglePlaySubscriptionResponse, PurchaseTokenStatus};

fn detail(s: &str) -> String {
    s.to_string()
}

#[test]
fn every_error_has_its_message_and_status() {
    let cases = [
        (AppError::DatabaseConnection, ErrorKind::DatabaseConnection, 500, "Database connection failed"),
        (
            AppError::DatabaseOperation(detail("locked")),
            ErrorKind::DatabaseOperation,
            500,
            "Database operation failed: locked",
        ),
        (
            AppError::GooglePlayApi(detail("API returned error status: 404 Not Found")),
            ErrorKind::GooglePlayApi,
            400,
            "Google Play API error: API returned error status: 404 Not Found",
        ),
        (
            AppError::GooglePlayVerification(detail("bad token")),
            ErrorKind::GooglePlayVerification,
            400,
            "Google Play verification failed: bad token",
        ),
        (
            AppError::AuthServiceUnavailable,
            ErrorKind::AuthServiceUnavailable,
            500,
            "Authentication service unavailable",
        ),
        (AppError::AdminIcAgentMissing, ErrorKind::AdminIcAgentMissing, 500, "Admin IC agent is missing"),
        (
            AppError::AccessTokenFailed(detail("no key")),
            ErrorKind::AccessTokenFailed,
            500,
            "Failed to get access token: no key",
        ),
        (
            AppError::TokenAlreadyUsed,
            ErrorKind::TokenAlreadyUsed,
            400,
            "Purchase token already used by different user",
        ),
        (AppError::TokenExpired, ErrorKind::TokenExpired, 400, "Purchase token has expired"),
        (
            AppError::SubscriptionCanceled,
            ErrorKind::SubscriptionCanceled,
            400,
            "Subscription has been canceled",
        ),
        (AppError::SubscriptionExpired, ErrorKind::SubscriptionExpired, 400, "Subscription has expired"),
        (AppError::SubscriptionOnHold, ErrorKind::SubscriptionOnHold, 202, "Subscription is on hold"),
        (
            AppError::SubscriptionPaused,
            ErrorKind::SubscriptionPaused,
            202,
            "Subscription is paused by user",
        ),
        (
            AppError::SubscriptionInvalidLineItems,
            ErrorKind::SubscriptionInvalidLineItems,
            400,
            "Subscription is active but has no valid line items",
        ),
        (
            AppError::SubscriptionInvalidState,
            ErrorKind::SubscriptionInvalidState,
            400,
            "Unknown or invalid subscription state",
        ),
        (
            AppError::SubscriptionNoState,
            ErrorKind::SubscriptionNoState,
            400,
            "No subscription state found in response",
        ),
        (
            AppError::GooglePlayResponseParse(detail("eof")),
            ErrorKind::GooglePlayResponseParse,
            400,
            "Failed to parse Google Play response: eof",
        ),
        (
            AppError::GooglePlayConnection(detail("reset")),
            ErrorKind::GooglePlayConnection,
            502,
            "Failed to connect to Google Play API: reset",
        ),
        (
            AppError::AcknowledgmentFailed,
            ErrorKind::AcknowledgmentFailed,
            400,
            "Failed to acknowledge purchase with Google Play",
        ),
        (
            AppError::ServiceAccessFailed(detail("rejected")),
            ErrorKind::ServiceAccessFailed,
            500,
            "Failed to grant service access: rejected",
        ),
        (AppError::NetworkError(detail("timed out")), ErrorKind::NetworkError, 502, "Network error: timed out"),
        (
            AppError::InternalError(detail("oops")),
            ErrorKind::InternalError,
            500,
            "Internal server error: oops",
        ),
        (AppError::BadRequest(detail("no")), ErrorKind::BadRequest, 400, "Bad request: no"),
        (
            AppError::ExternalAccountIdentifiersMissing,
            ErrorKind::ExternalAccountIdentifiersMissing,
            400,
            "External account identifiers are missing",
        ),
    ];
    for (error, kind, status, message) in cases {
        assert_eq!(error.kind(), kind);
        assert_eq!(error.status_code(), status, "{message}");
        assert_eq!(error.message(), message);
        assert_eq!(error.duplicate(), error);

        let reply = error.into_response();
        assert_eq!(reply.status, status);
        assert_eq!(reply.body, ApiResponse::<()>::error(message.to_string()));
    }
}

#[test]
fn empty_detail_leaves_the_prefix() {
    assert_eq!(AppError::BadRequest(String::new()).message(), "Bad request: ");
}

#[test]
fn conversions_make_internal_errors() {
    assert_eq!(AppError::from("boom".to_string()), AppError::InternalError("boom".to_string()));
    assert_eq!(AppError::internal("boom"), AppError::InternalError("boom".to_string()));
    assert_eq!(
        AppError::database("no such table".to_string()),
        AppError::DatabaseOperation("no such table".to_string())
    );
}

#[test]
fn responses_carry_what_they_are_given() {
    assert_eq!(
        ApiResponse::success(7),
        ApiResponse { success: true, msg: None, error: None, data: Some(7) }
    );
    assert_eq!(
        ApiResponse::success_with_msg(7, "done".to_string()),
        ApiResponse { success: true, msg: Some("done".to_string()), error: None, data: Some(7) }
    );
    assert_eq!(
        ApiResponse::<u8>::error("bad".to_string()),
        ApiResponse { success: false, msg: None, error: Some("bad".to_string()), data: None }
    );
    assert_eq!(
        ApiResponse::<u8>::error_with_msg("bad".to_string(), "sorry".to_string()),
        ApiResponse {
            success: false,
            msg: Some("sorry".to_string()),
            error: Some("bad".to_string()),
            data: None
        }
    );
    assert_eq!(
        ApiResponse::ok(),
        ApiResponse { success: true, msg: None, error: None, data: Some(()) }
    );
    assert_eq!(
        ApiResponse::ok_with_msg("done".to_string()),
        ApiResponse { success: true, msg: Some("done".to_string()), error: None, data: Some(()) }
    );
}

#[test]
fn status_text_round_trips() {
    for status in [
        PurchaseTokenStatus::Pending,
        PurchaseTokenStatus::AccessGranted,
        PurchaseTokenStatus::Expired,
    ] {
        assert_eq!(PurchaseTokenStatus::from_sql(status.to_sql()), Ok(status));
    }
    assert_eq!(PurchaseTokenStatus::Pending.to_sql(), "pending");
    assert_eq!(PurchaseTokenStatus::AccessGranted.to_sql(), "access_granted");
    assert_eq!(PurchaseTokenStatus::Expired.to_sql(), "expired");
}

#[test]
fn unknown_status_text_is_refused() {
    for text in ["granted", "", "Pending", "expired ", "0"] {
        assert_eq!(
            PurchaseTokenStatus::from_sql(text),
            Err("Invalid purchase token status".to_string())
        );
    }
}

fn response_in(state: &str) -> GooglePlaySubscriptionResponse {
    GooglePlaySubscriptionResponse {
        kind: String::new(),
        start_time: None,
        region_code: None,
        subscription_state: state.to_string(),
        latest_order_id: None,
        acknowledgement_state: String::new(),
        line_items: vec![],
        linked_purchase_token: None,
        purchase_token: String::new(),
        external_account_identifiers: None,
        subscribe_with_google_info: None,
    }
}

#[test]
fn state_table() {
    let table = [
        ("SUBSCRIPTION_STATE_ACTIVE", SubscriptionState::Active, TransitionDecision::Proceed, Ok(())),
        (
            "SUBSCRIPTION_STATE_IN_GRACE_PERIOD",
            SubscriptionState::InGracePeriod,
            TransitionDecision::Proceed,
            Ok(()),
        ),
        (
            "SUBSCRIPTION_STATE_CANCELED",
            SubscriptionState::Canceled,
            TransitionDecision::NoImmediateAction,
            Err(AppError::SubscriptionCanceled),
        ),
        (
            "SUBSCRIPTION_STATE_ON_HOLD",
            SubscriptionState::OnHold,
            TransitionDecision::Suspend,
            Err(AppError::SubscriptionOnHold),
        ),
        (
            "SUBSCRIPTION_STATE_PAUSED",
            SubscriptionState::Paused,
            TransitionDecision::Suspend,
            Err(AppError::SubscriptionPaused),
        ),
        (
            "SUBSCRIPTION_STATE_EXPIRED",
            SubscriptionState::Expired,
            TransitionDecision::Revoke,
            Err(AppError::SubscriptionExpired),
        ),
        (
            "SUBSCRIPTION_STATE_PENDING",
            SubscriptionState::Unrecognized,
            TransitionDecision::Reject,
            Err(AppError::SubscriptionInvalidState),
        ),
        (
            "SUBSCRIPTION_STATE_UNSPECIFIED",
            SubscriptionState::Unrecognized,
            TransitionDecision::Reject,
            Err(AppError::SubscriptionInvalidState),
        ),
        (
            "subscription_state_active",
            SubscriptionState::Unrecognized,
            TransitionDecision::Reject,
            Err(AppError::SubscriptionInvalidState),
        ),
        ("", SubscriptionState::Unrecognized, TransitionDecision::Reject, Err(AppError::SubscriptionInvalidState)),
    ];
    for (text, state, decision, answer) in table {
        assert_eq!(SubscriptionState::parse(text), state, "{text}");
        assert_eq!(state.decision(), decision, "{text}");
        assert_eq!(verify_subcription_response_for_active_status(&response_in(text)), answer);
    }
}
