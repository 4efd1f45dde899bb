//! Requests, responses, notifications and the provider's subscription detail.

use vstd::prelude::*;
use vstd::string::*;
use crate::text::same_text;

pub mod google_play_acknowledgement_state;
pub mod google_play_subscription_state;
pub mod one_time_product_notification_type;
pub mod subscription_notification_type;

verus! {

/// Common API response structure for all endpoints.
#[derive(Debug, Clone, PartialEq, Eq)]
pub struct ApiResponse<T> {
    /// Indicates whether the request was successful.
    pub success: bool,
    /// Optional success message.
    pub msg: Option<String>,
    /// Optional error message (present when success is false).
    pub error: Option<String>,
    /// Response data (present when success is true).
    pub data: Option<T>,
}

/// Empty data type for API responses without payload.
#[derive(Debug, Clone, Copy, PartialEq, Eq)]
pub struct EmptyData;

impl<T> ApiResponse<T> {
    /// Create a successful response with data.
    pub fn success(data: T) -> (r: Self)
        ensures
            r.success,
            r.msg is None,
            r.error is None,
            r.data == Some(data),
    {
        Self { success: true, msg: None, error: None, data: Some(data) }
    }

    /// Create a successful response with data and message.
    pub fn success_with_msg(data: T, msg: String) -> (r: Self)
        ensures
            r.success,
            r.msg == Some(msg),
            r.error is None,
            r.data == Some(data),
    {
        Self { success: true, msg: Some(msg), error: None, data: Some(data) }
    }

    /// Create an error response.
    pub fn error(error: String) -> (r: Self)
        ensures
            !r.success,
            r.msg is None,
            r.error == Some(error),
            r.data is None,
    {
        Self { success: false, msg: None, error: Some(error), data: None }
    }

    /// Create an error response with custom message.
    pub fn error_with_msg(error: String, msg: String) -> (r: Self)
        ensures
            !r.success,
            r.msg == Some(msg),
            r.error == Some(error),
            r.data is None,
    {
        Self { success: false, msg: Some(msg), error: Some(error), data: None }
    }
}

impl ApiResponse<()> {
    /// Create a successful response without data (just success status).
    pub fn ok() -> (r: Self)
        ensures
            r.success,
            r.msg is None,
            r.error is None,
            r.data == Some(()),
    {
        Self { success: true, msg: None, error: None, data: Some(()) }
    }

    /// Create a successful response without data but with a message.
    pub fn ok_with_msg(msg: String) -> (r: Self)
        ensures
            r.success,
            r.msg == Some(msg),
            r.error is None,
            r.data == Some(()),
    {
        Self { success: true, msg: Some(msg), error: None, data: Some(()) }
    }
}

/// Where a purchase token stands locally.
#[derive(Debug, Clone, Copy, PartialEq, Eq, Structural)]
pub enum PurchaseTokenStatus {
    /// Subscription token is pending acknowledgment with Google Play.
    Pending,
    /// Subscription token acknowledged and service access successfully granted.
    AccessGranted,
    /// Subscription token has expired or been canceled.
    Expired,
}

impl PurchaseTokenStatus {
    /// The text under which a status is persisted.
    pub open spec fn spec_to_sql(self) -> Seq<char> {
        match self {
            PurchaseTokenStatus::Pending => "pending"@,
            PurchaseTokenStatus::AccessGranted => "access_granted"@,
            PurchaseTokenStatus::Expired => "expired"@,
        }
    }

    /// The status that a persisted text stands for, if any.
    pub open spec fn spec_from_sql(text: Seq<char>) -> Option<PurchaseTokenStatus> {
        if text == "pending"@ {
            Some(PurchaseTokenStatus::Pending)
        } else if text == "access_granted"@ {
            Some(PurchaseTokenStatus::AccessGranted)
        } else if text == "expired"@ {
            Some(PurchaseTokenStatus::Expired)
        } else {
            None
        }
    }

    /// The persisted encoding of the status.
    pub fn to_sql(&self) -> (text: &'static str)
        ensures
            text@ == self.spec_to_sql(),
    {
        match self {
            PurchaseTokenStatus::AccessGranted => "access_granted",
            PurchaseTokenStatus::Expired => "expired",
            PurchaseTokenStatus::Pending => "pending",
        }
    }

    /// Reads a persisted status back; any other text is refused.
    pub fn from_sql(text: &str) -> (r: Result<PurchaseTokenStatus, String>)
        ensures
            match Self::spec_from_sql(text@) {
                Some(status) => r == Ok::<PurchaseTokenStatus, String>(status),
                None => r is Err && r->Err_0@ == "Invalid purchase token status"@,
            },
    {
        if same_text(text, "pending") {
            Ok(PurchaseTokenStatus::Pending)
        } else if same_text(text, "access_granted") {
            Ok(PurchaseTokenStatus::AccessGranted)
        } else if same_text(text, "expired") {
            Ok(PurchaseTokenStatus::Expired)
        } else {
            Err(String::from_str("Invalid purchase token status"))
        }
    }

    /// Reading back what was written gives the status that was written.
    pub proof fn law_sql_round_trip(self)
        ensures
            Self::spec_from_sql(self.spec_to_sql()) == Some(self),
    {
        reveal_strlit("pending");
        reveal_strlit("access_granted");
        reveal_strlit("expired");
        assert("pending"@.len() != "access_granted"@.len());
        assert("expired"@[0] != "pending"@[0]);
        assert("expired"@.len() != "access_granted"@.len());
    }
}

/// A request to verify a purchase.
#[derive(Debug, Clone, PartialEq, Eq)]
pub struct VerifyRequest {
    /// Unique identifier for the user.
    pub user_id: String,
    /// Android package name.
    pub package_name: String,
    /// Subscription ID from Google Play.
    pub product_id: String,
    /// Subscription purchase token from Google Play.
    pub purchase_token: String,
}

impl VerifyRequest {
    /// All four fields are given: none is empty.
    pub open spec fn spec_is_complete(self) -> bool {
        self.user_id@.len() > 0 && self.package_name@.len() > 0 && self.product_id@.len() > 0
            && self.purchase_token@.len() > 0
    }

    /// Whether all four fields are given.
    pub fn is_complete(&self) -> (complete: bool)
        ensures
            complete == self.spec_is_complete(),
    {
        self.user_id.as_str().unicode_len() > 0 && self.package_name.as_str().unicode_len() > 0
            && self.product_id.as_str().unicode_len() > 0
            && self.purchase_token.as_str().unicode_len() > 0
    }
}

/// Empty response for verification endpoints.
#[derive(Debug, Clone, Copy, PartialEq, Eq)]
pub struct VerifyResponse {}

/// A request to acknowledge a purchase.
#[derive(Debug, Clone, PartialEq, Eq)]
pub struct AckRequest {
    /// Android package name.
    pub package_name: String,
    /// Product ID from Google Play.
    pub product_id: String,
    /// Purchase token from Google Play.
    pub purchase_token: String,
}

/// A request to change the credits of a user's paid plan.
#[derive(Debug, Clone, PartialEq, Eq)]
pub struct CreditRequest {
    /// The user's principal, in its text form.
    pub user_principal: String,
    /// The number of credits to take or to add.
    pub amount: u64,
}

/// The outcome of an acknowledgment.
#[derive(Debug, Clone, Copy, PartialEq, Eq)]
pub struct AckData {
    /// Whether the acknowledgment was successful.
    pub acknowledged: bool,
}

pub type AckResponse = ApiResponse<AckData>;

/// Simple response type for operations that don't return specific data.
#[derive(Debug, Clone, PartialEq, Eq)]
pub struct SimpleResponse {
    pub status: String,
}

pub type GenericResponse = ApiResponse<SimpleResponse>;

/// Common response type for operations that just need to indicate success/failure.
pub type StatusResponse = ApiResponse<()>;

/// A lifecycle event of the provider.
#[derive(Debug, Clone, PartialEq, Eq)]
pub struct DeveloperNotification {
    pub version: String,
    pub package_name: String,
    pub event_time_millis: String,
    pub subscription_notification: Option<SubscriptionNotification>,
    pub one_time_product_notification: Option<OneTimeProductNotification>,
    pub test_notification: Option<TestNotification>,
}

/// The part of a lifecycle event that speaks of a subscription.
#[derive(Debug, Clone, PartialEq, Eq)]
pub struct SubscriptionNotification {
    pub version: String,
    pub notification_type: i32,
    pub purchase_token: String,
    pub subscription_id: String,
}

/// The part of a lifecycle event that speaks of a one-time product.
#[derive(Debug, Clone, PartialEq, Eq)]
pub struct OneTimeProductNotification {
    pub version: String,
    pub notification_type: i32,
    pub purchase_token: String,
    pub sku: String,
}

/// A notification sent from the provider's console to try out the endpoint.
#[derive(Debug, Clone, PartialEq, Eq)]
pub struct TestNotification {
    pub version: String,
}

/// The transport envelope of a notification.
#[derive(Debug, Clone, PartialEq, Eq)]
pub struct PubSubMessage {
    pub message: PubSubData,
}

/// The body of the transport envelope; `data` is the encoded event.
#[derive(Debug, Clone, PartialEq, Eq)]
pub struct PubSubData {
    pub data: String,
    pub message_id: String,
    pub publish_time: String,
}

/// The provider's authoritative detail of one subscription.
#[derive(Debug, Clone, PartialEq, Eq)]
pub struct GooglePlaySubscriptionResponse {
    pub kind: String,
    pub start_time: Option<String>,
    pub region_code: Option<String>,
    pub subscription_state: String,
    pub latest_order_id: Option<String>,
    pub acknowledgement_state: String,
    pub line_items: Vec<SubscriptionLineItem>,
    pub linked_purchase_token: Option<String>,
    pub purchase_token: String,
    pub external_account_identifiers: Option<ExternalAccountIdentifiers>,
    pub subscribe_with_google_info: Option<SubscribeWithGoogleInfo>,
}

/// A product entry within a subscription detail.
#[derive(Debug, Clone, PartialEq, Eq)]
pub struct SubscriptionLineItem {
    pub product_id: String,
    pub expiry_time: Option<String>,
    pub auto_renewing: Option<bool>,
    pub price_change_state: Option<String>,
}

/// The identities that the purchaser's account carries on our side.
#[derive(Debug, Clone, PartialEq, Eq)]
pub struct ExternalAccountIdentifiers {
    pub external_account_id: Option<String>,
    pub obfuscated_external_account_id: Option<String>,
    pub obfuscated_external_profile_id: Option<String>,
}

/// Profile data of a purchase made through Subscribe with Google.
#[derive(Debug, Clone, PartialEq, Eq)]
pub struct SubscribeWithGoogleInfo {
    pub profile_id: Option<String>,
    pub profile_name: Option<String>,
    pub email_address: Option<String>,
    pub given_name: Option<String>,
    pub family_name: Option<String>,
}

} // verus!
