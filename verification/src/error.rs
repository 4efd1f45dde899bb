//! The error taxonomy of the billing service and its mapping to responses.

use vstd::prelude::*;
use vstd::string::*;
use crate::types::ApiResponse;

verus! {

/// Everything that can go wrong while serving a request.
#[derive(Debug, Clone, PartialEq, Eq)]
pub enum AppError {
    DatabaseConnection,
    DatabaseOperation(String),
    GooglePlayApi(String),
    GooglePlayVerification(String),
    AuthServiceUnavailable,
    AdminIcAgentMissing,
    AccessTokenFailed(String),
    TokenAlreadyUsed,
    TokenExpired,
    SubscriptionCanceled,
    SubscriptionExpired,
    SubscriptionOnHold,
    SubscriptionPaused,
    SubscriptionInvalidLineItems,
    SubscriptionInvalidState,
    SubscriptionNoState,
    GooglePlayResponseParse(String),
    GooglePlayConnection(String),
    AcknowledgmentFailed,
    ServiceAccessFailed(String),
    NetworkError(String),
    InternalError(String),
    BadRequest(String),
    ExternalAccountIdentifiersMissing,
}

/// Which error it is, without the detail that some errors carry.
#[derive(Debug, Clone, Copy, PartialEq, Eq, Structural)]
pub enum ErrorKind {
    DatabaseConnection,
    DatabaseOperation,
    GooglePlayApi,
    GooglePlayVerification,
    AuthServiceUnavailable,
    AdminIcAgentMissing,
    AccessTokenFailed,
    TokenAlreadyUsed,
    TokenExpired,
    SubscriptionCanceled,
    SubscriptionExpired,
    SubscriptionOnHold,
    SubscriptionPaused,
    SubscriptionInvalidLineItems,
    SubscriptionInvalidState,
    SubscriptionNoState,
    GooglePlayResponseParse,
    GooglePlayConnection,
    AcknowledgmentFailed,
    ServiceAccessFailed,
    NetworkError,
    InternalError,
    BadRequest,
    ExternalAccountIdentifiersMissing,
}

/// What an error holds, as plain values: which error it is and the detail
/// that it carries, empty where it carries none.
pub struct ErrorView {
    pub kind: ErrorKind,
    pub detail: Seq<char>,
}

impl ErrorView {
    /// The error of a kind that carries no detail.
    pub open spec fn plain(kind: ErrorKind) -> ErrorView {
        ErrorView { kind, detail: Seq::<char>::empty() }
    }

    /// The error of a kind with its detail.
    pub open spec fn with_detail(kind: ErrorKind, detail: Seq<char>) -> ErrorView {
        ErrorView { kind, detail }
    }
}

impl View for AppError {
    type V = ErrorView;

    open spec fn view(&self) -> ErrorView {
        ErrorView { kind: self.spec_kind(), detail: self.detail() }
    }
}

/// A result with its error taken by its view.
pub open spec fn result_view<T>(r: Result<T, AppError>) -> Result<T, ErrorView> {
    match r {
        Ok(v) => Ok(v),
        Err(e) => Err(e@),
    }
}

/// HTTP status of an internal failure.
pub const STATUS_INTERNAL_SERVER_ERROR: u16 = 500;

/// HTTP status of a rejected request.
pub const STATUS_BAD_REQUEST: u16 = 400;

/// HTTP status of a request that was taken in but not acted on.
pub const STATUS_ACCEPTED: u16 = 202;

/// HTTP status of a failure of an upstream service.
pub const STATUS_BAD_GATEWAY: u16 = 502;

/// HTTP status of success.
pub const STATUS_OK: u16 = 200;

impl ErrorKind {
    /// The class of the error: whether the service itself failed.
    pub open spec fn is_internal(self) -> bool {
        self == ErrorKind::DatabaseConnection || self == ErrorKind::DatabaseOperation || self
            == ErrorKind::AuthServiceUnavailable || self == ErrorKind::AdminIcAgentMissing || self
            == ErrorKind::AccessTokenFailed || self == ErrorKind::ServiceAccessFailed || self
            == ErrorKind::InternalError
    }

    /// Whether the subscription is suspended: the request is accepted but
    /// nothing is granted.
    pub open spec fn is_soft_accept(self) -> bool {
        self == ErrorKind::SubscriptionOnHold || self == ErrorKind::SubscriptionPaused
    }

    /// Whether the provider could not be reached, so that a retry may help.
    pub open spec fn is_gateway(self) -> bool {
        self == ErrorKind::GooglePlayConnection || self == ErrorKind::NetworkError
    }

    /// The HTTP status that the error is answered with.
    pub open spec fn spec_status_code(self) -> u16 {
        if self.is_internal() {
            STATUS_INTERNAL_SERVER_ERROR
        } else if self.is_soft_accept() {
            STATUS_ACCEPTED
        } else if self.is_gateway() {
            STATUS_BAD_GATEWAY
        } else {
            STATUS_BAD_REQUEST
        }
    }

    /// The fixed part of the message, which stands before the detail.
    pub open spec fn message_prefix(self) -> Seq<char> {
        match self {
            ErrorKind::DatabaseConnection => "Database connection failed"@,
            ErrorKind::DatabaseOperation => "Database operation failed: "@,
            ErrorKind::GooglePlayApi => "Google Play API error: "@,
            ErrorKind::GooglePlayVerification => "Google Play verification failed: "@,
            ErrorKind::AuthServiceUnavailable => "Authentication service unavailable"@,
            ErrorKind::AdminIcAgentMissing => "Admin IC agent is missing"@,
            ErrorKind::AccessTokenFailed => "Failed to get access token: "@,
            ErrorKind::TokenAlreadyUsed => "Purchase token already used by different user"@,
            ErrorKind::TokenExpired => "Purchase token has expired"@,
            ErrorKind::SubscriptionCanceled => "Subscription has been canceled"@,
            ErrorKind::SubscriptionExpired => "Subscription has expired"@,
            ErrorKind::SubscriptionOnHold => "Subscription is on hold"@,
            ErrorKind::SubscriptionPaused => "Subscription is paused by user"@,
            ErrorKind::SubscriptionInvalidLineItems => "Subscription is active but has no valid line items"@,
            ErrorKind::SubscriptionInvalidState => "Unknown or invalid subscription state"@,
            ErrorKind::SubscriptionNoState => "No subscription state found in response"@,
            ErrorKind::GooglePlayResponseParse => "Failed to parse Google Play response: "@,
            ErrorKind::GooglePlayConnection => "Failed to connect to Google Play API: "@,
            ErrorKind::AcknowledgmentFailed => "Failed to acknowledge purchase with Google Play"@,
            ErrorKind::ServiceAccessFailed => "Failed to grant service access: "@,
            ErrorKind::NetworkError => "Network error: "@,
            ErrorKind::InternalError => "Internal server error: "@,
            ErrorKind::BadRequest => "Bad request: "@,
            ErrorKind::ExternalAccountIdentifiersMissing => "External account identifiers are missing"@,
        }
    }
}

impl ErrorView {
    /// The HTTP status that the error is answered with.
    pub open spec fn status_code(self) -> u16 {
        self.kind.spec_status_code()
    }

    /// The text of the message: the fixed part followed by the detail.
    pub open spec fn message(self) -> Seq<char> {
        self.kind.message_prefix() + self.detail
    }
}

impl AppError {
    /// Which error this is.
    pub open spec fn spec_kind(self) -> ErrorKind {
        match self {
            AppError::DatabaseConnection => ErrorKind::DatabaseConnection,
            AppError::DatabaseOperation(_) => ErrorKind::DatabaseOperation,
            AppError::GooglePlayApi(_) => ErrorKind::GooglePlayApi,
            AppError::GooglePlayVerification(_) => ErrorKind::GooglePlayVerification,
            AppError::AuthServiceUnavailable => ErrorKind::AuthServiceUnavailable,
            AppError::AdminIcAgentMissing => ErrorKind::AdminIcAgentMissing,
            AppError::AccessTokenFailed(_) => ErrorKind::AccessTokenFailed,
            AppError::TokenAlreadyUsed => ErrorKind::TokenAlreadyUsed,
            AppError::TokenExpired => ErrorKind::TokenExpired,
            AppError::SubscriptionCanceled => ErrorKind::SubscriptionCanceled,
            AppError::SubscriptionExpired => ErrorKind::SubscriptionExpired,
            AppError::SubscriptionOnHold => ErrorKind::SubscriptionOnHold,
            AppError::SubscriptionPaused => ErrorKind::SubscriptionPaused,
            AppError::SubscriptionInvalidLineItems => ErrorKind::SubscriptionInvalidLineItems,
            AppError::SubscriptionInvalidState => ErrorKind::SubscriptionInvalidState,
            AppError::SubscriptionNoState => ErrorKind::SubscriptionNoState,
            AppError::GooglePlayResponseParse(_) => ErrorKind::GooglePlayResponseParse,
            AppError::GooglePlayConnection(_) => ErrorKind::GooglePlayConnection,
            AppError::AcknowledgmentFailed => ErrorKind::AcknowledgmentFailed,
            AppError::ServiceAccessFailed(_) => ErrorKind::ServiceAccessFailed,
            AppError::NetworkError(_) => ErrorKind::NetworkError,
            AppError::InternalError(_) => ErrorKind::InternalError,
            AppError::BadRequest(_) => ErrorKind::BadRequest,
            AppError::ExternalAccountIdentifiersMissing => ErrorKind::ExternalAccountIdentifiersMissing,
        }
    }

    /// The class of the error: whether the service itself failed.
    pub open spec fn is_internal(self) -> bool {
        self.spec_kind().is_internal()
    }

    /// Whether the subscription is suspended: the request is accepted but
    /// nothing is granted.
    pub open spec fn is_soft_accept(self) -> bool {
        self.spec_kind().is_soft_accept()
    }

    /// Whether the provider could not be reached, so that a retry may help.
    pub open spec fn is_gateway(self) -> bool {
        self.spec_kind().is_gateway()
    }

    /// The HTTP status that the error is answered with.
    pub open spec fn spec_status_code(self) -> u16 {
        self.spec_kind().spec_status_code()
    }

    /// The fixed part of the message, which stands before the detail.
    pub open spec fn message_prefix(self) -> Seq<char> {
        self.spec_kind().message_prefix()
    }

    /// The detail that the error carries, empty where it carries none.
    pub open spec fn detail(self) -> Seq<char> {
        match self {
            AppError::DatabaseOperation(s)
            | AppError::GooglePlayApi(s)
            | AppError::GooglePlayVerification(s)
            | AppError::AccessTokenFailed(s)
            | AppError::GooglePlayResponseParse(s)
            | AppError::GooglePlayConnection(s)
            | AppError::ServiceAccessFailed(s)
            | AppError::NetworkError(s)
            | AppError::InternalError(s)
            | AppError::BadRequest(s) => s@,
            _ => Seq::<char>::empty(),
        }
    }

    /// The text of the message: the prefix followed by the detail.
    pub open spec fn spec_message(self) -> Seq<char> {
        self.message_prefix() + self.detail()
    }

    /// Which error this is.
    pub fn kind(&self) -> (kind: ErrorKind)
        ensures
            kind == self.spec_kind(),
    {
        match self {
            AppError::DatabaseConnection => ErrorKind::DatabaseConnection,
            AppError::DatabaseOperation(_) => ErrorKind::DatabaseOperation,
            AppError::GooglePlayApi(_) => ErrorKind::GooglePlayApi,
            AppError::GooglePlayVerification(_) => ErrorKind::GooglePlayVerification,
            AppError::AuthServiceUnavailable => ErrorKind::AuthServiceUnavailable,
            AppError::AdminIcAgentMissing => ErrorKind::AdminIcAgentMissing,
            AppError::AccessTokenFailed(_) => ErrorKind::AccessTokenFailed,
            AppError::TokenAlreadyUsed => ErrorKind::TokenAlreadyUsed,
            AppError::TokenExpired => ErrorKind::TokenExpired,
            AppError::SubscriptionCanceled => ErrorKind::SubscriptionCanceled,
            AppError::SubscriptionExpired => ErrorKind::SubscriptionExpired,
            AppError::SubscriptionOnHold => ErrorKind::SubscriptionOnHold,
            AppError::SubscriptionPaused => ErrorKind::SubscriptionPaused,
            AppError::SubscriptionInvalidLineItems => ErrorKind::SubscriptionInvalidLineItems,
            AppError::SubscriptionInvalidState => ErrorKind::SubscriptionInvalidState,
            AppError::SubscriptionNoState => ErrorKind::SubscriptionNoState,
            AppError::GooglePlayResponseParse(_) => ErrorKind::GooglePlayResponseParse,
            AppError::GooglePlayConnection(_) => ErrorKind::GooglePlayConnection,
            AppError::AcknowledgmentFailed => ErrorKind::AcknowledgmentFailed,
            AppError::ServiceAccessFailed(_) => ErrorKind::ServiceAccessFailed,
            AppError::NetworkError(_) => ErrorKind::NetworkError,
            AppError::InternalError(_) => ErrorKind::InternalError,
            AppError::BadRequest(_) => ErrorKind::BadRequest,
            AppError::ExternalAccountIdentifiersMissing => ErrorKind::ExternalAccountIdentifiersMissing,
        }
    }

    /// A copy of the error.
    pub fn duplicate(&self) -> (copy: AppError)
        ensures
            copy@ == self@,
            copy == *self,
    {
        match self {
            AppError::DatabaseConnection => AppError::DatabaseConnection,
            AppError::DatabaseOperation(s) => AppError::DatabaseOperation(s.clone()),
            AppError::GooglePlayApi(s) => AppError::GooglePlayApi(s.clone()),
            AppError::GooglePlayVerification(s) => AppError::GooglePlayVerification(s.clone()),
            AppError::AuthServiceUnavailable => AppError::AuthServiceUnavailable,
            AppError::AdminIcAgentMissing => AppError::AdminIcAgentMissing,
            AppError::AccessTokenFailed(s) => AppError::AccessTokenFailed(s.clone()),
            AppError::TokenAlreadyUsed => AppError::TokenAlreadyUsed,
            AppError::TokenExpired => AppError::TokenExpired,
            AppError::SubscriptionCanceled => AppError::SubscriptionCanceled,
            AppError::SubscriptionExpired => AppError::SubscriptionExpired,
            AppError::SubscriptionOnHold => AppError::SubscriptionOnHold,
            AppError::SubscriptionPaused => AppError::SubscriptionPaused,
            AppError::SubscriptionInvalidLineItems => AppError::SubscriptionInvalidLineItems,
            AppError::SubscriptionInvalidState => AppError::SubscriptionInvalidState,
            AppError::SubscriptionNoState => AppError::SubscriptionNoState,
            AppError::GooglePlayResponseParse(s) => AppError::GooglePlayResponseParse(s.clone()),
            AppError::GooglePlayConnection(s) => AppError::GooglePlayConnection(s.clone()),
            AppError::AcknowledgmentFailed => AppError::AcknowledgmentFailed,
            AppError::ServiceAccessFailed(s) => AppError::ServiceAccessFailed(s.clone()),
            AppError::NetworkError(s) => AppError::NetworkError(s.clone()),
            AppError::InternalError(s) => AppError::InternalError(s.clone()),
            AppError::BadRequest(s) => AppError::BadRequest(s.clone()),
            AppError::ExternalAccountIdentifiersMissing => AppError::ExternalAccountIdentifiersMissing,
        }
    }

    /// Get the appropriate HTTP status code for this error.
    pub fn status_code(&self) -> (code: u16)
        ensures
            code == self.spec_status_code(),
            code == self@.status_code(),
    {
        match self {
            AppError::DatabaseConnection
            | AppError::DatabaseOperation(_)
            | AppError::AuthServiceUnavailable
            | AppError::AdminIcAgentMissing
            | AppError::AccessTokenFailed(_)
            | AppError::ServiceAccessFailed(_)
            | AppError::InternalError(_) => STATUS_INTERNAL_SERVER_ERROR,
            AppError::SubscriptionOnHold | AppError::SubscriptionPaused => STATUS_ACCEPTED,
            AppError::GooglePlayConnection(_) | AppError::NetworkError(_) => STATUS_BAD_GATEWAY,
            _ => STATUS_BAD_REQUEST,
        }
    }

    /// Get the error message.
    pub fn message(&self) -> (text: String)
        ensures
            text@ == self.spec_message(),
            text@ == self@.message(),
    {
        let text = match self {
            AppError::DatabaseConnection => String::from_str("Database connection failed"),
            AppError::DatabaseOperation(s) => String::from_str("Database operation failed: ").concat(
                s.as_str(),
            ),
            AppError::GooglePlayApi(s) => String::from_str("Google Play API error: ").concat(
                s.as_str(),
            ),
            AppError::GooglePlayVerification(s) => String::from_str(
                "Google Play verification failed: ",
            ).concat(s.as_str()),
            AppError::AuthServiceUnavailable => String::from_str(
                "Authentication service unavailable",
            ),
            AppError::AdminIcAgentMissing => String::from_str("Admin IC agent is missing"),
            AppError::AccessTokenFailed(s) => String::from_str(
                "Failed to get access token: ",
            ).concat(s.as_str()),
            AppError::TokenAlreadyUsed => String::from_str(
                "Purchase token already used by different user",
            ),
            AppError::TokenExpired => String::from_str("Purchase token has expired"),
            AppError::SubscriptionCanceled => String::from_str("Subscription has been canceled"),
            AppError::SubscriptionExpired => String::from_str("Subscription has expired"),
            AppError::SubscriptionOnHold => String::from_str("Subscription is on hold"),
            AppError::SubscriptionPaused => String::from_str("Subscription is paused by user"),
            AppError::SubscriptionInvalidLineItems => String::from_str(
                "Subscription is active but has no valid line items",
            ),
            AppError::SubscriptionInvalidState => String::from_str(
                "Unknown or invalid subscription state",
            ),
            AppError::SubscriptionNoState => String::from_str(
                "No subscription state found in response",
            ),
            AppError::GooglePlayResponseParse(s) => String::from_str(
                "Failed to parse Google Play response: ",
            ).concat(s.as_str()),
            AppError::GooglePlayConnection(s) => String::from_str(
                "Failed to connect to Google Play API: ",
            ).concat(s.as_str()),
            AppError::AcknowledgmentFailed => String::from_str(
                "Failed to acknowledge purchase with Google Play",
            ),
            AppError::ServiceAccessFailed(s) => String::from_str(
                "Failed to grant service access: ",
            ).concat(s.as_str()),
            AppError::NetworkError(s) => String::from_str("Network error: ").concat(s.as_str()),
            AppError::InternalError(s) => String::from_str("Internal server error: ").concat(
                s.as_str(),
            ),
            AppError::BadRequest(s) => String::from_str("Bad request: ").concat(s.as_str()),
            AppError::ExternalAccountIdentifiersMissing => String::from_str(
                "External account identifiers are missing",
            ),
        };
        assert(text@ =~= self.spec_message());
        text
    }
    /// The answer to a request that failed with this error.
    pub fn into_response(self) -> (reply: HttpReply)
        ensures
            reply@ == self@.reply(),
    {
        let status = self.status_code();
        let body = ApiResponse::<()>::error(self.message());
        HttpReply { status, body }
    }

    /// The internal error with the given reason.
    pub fn internal(reason: &str) -> (e: AppError)
        ensures
            e@ == ErrorView::with_detail(ErrorKind::InternalError, reason@),
    {
        AppError::InternalError(String::from_str(reason))
    }

    /// The error of a database operation that failed for the given reason.
    pub fn database(reason: String) -> (e: AppError)
        ensures
            e@ == ErrorView::with_detail(ErrorKind::DatabaseOperation, reason@),
    {
        AppError::DatabaseOperation(reason)
    }
}

impl From<String> for AppError {
    fn from(err: String) -> (e: AppError) {
        AppError::InternalError(err)
    }
}

impl vstd::std_specs::convert::FromSpecImpl<String> for AppError {
    open spec fn obeys_from_spec() -> bool {
        true
    }

    open spec fn from_spec(err: String) -> AppError {
        AppError::InternalError(err)
    }
}

/// An answer to an HTTP request: the status and the body.
#[derive(Debug, Clone, PartialEq, Eq)]
pub struct HttpReply {
    pub status: u16,
    pub body: ApiResponse<()>,
}

/// An answer to an HTTP request, as plain values.
pub struct ReplyView {
    pub status: u16,
    pub success: bool,
    pub msg: Option<Seq<char>>,
    pub error: Option<Seq<char>>,
    pub has_data: bool,
}

/// An optional string, as its text.
pub open spec fn optional_text(text: Option<String>) -> Option<Seq<char>> {
    match text {
        Some(t) => Some(t@),
        None => None,
    }
}

impl View for HttpReply {
    type V = ReplyView;

    open spec fn view(&self) -> ReplyView {
        ReplyView {
            status: self.status,
            success: self.body.success,
            msg: optional_text(self.body.msg),
            error: optional_text(self.body.error),
            has_data: self.body.data is Some,
        }
    }
}

impl ErrorView {
    /// The answer to a request that failed with this error: the status of the
    /// error's class, and a body that carries the message and no data.
    pub open spec fn reply(self) -> ReplyView {
        ReplyView {
            status: self.status_code(),
            success: false,
            msg: None,
            error: Some(self.message()),
            has_data: false,
        }
    }
}

/// Result type for application operations.
pub type AppResult<T> = Result<T, AppError>;

} // verus!
