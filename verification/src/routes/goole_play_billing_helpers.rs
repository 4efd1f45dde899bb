//! The provider client's requests and what is made of its replies.
//!
//! The requests themselves are sent by the caller. Here stand the address of
//! each request, the conditions under which it is sent at all, and the
//! reading of whatever came back.

use vstd::prelude::*;
use vstd::string::*;
use crate::error::{AppError, AppResult, ErrorKind, ErrorView};
use crate::routes::purchase::{acknowledgement_pending, spec_acknowledgement_pending};
use crate::types::GooglePlaySubscriptionResponse;

verus! {

/// The address of the provider's subscriptions, up to the package name.
pub const APPLICATIONS_URL: &'static str =
    "https://androidpublisher.googleapis.com/androidpublisher/v3/applications/";

/// The part of the address between the package name and the token.
pub const TOKENS_PATH: &'static str = "/purchases/subscriptionsv2/tokens/";

/// What is appended to a subscription's address to acknowledge it.
pub const ACKNOWLEDGE_SUFFIX: &'static str = ":acknowledge";

/// The address of a subscription's detail.
pub open spec fn spec_subscription_url(package_name: Seq<char>, purchase_token: Seq<char>) -> Seq<
    char,
> {
    APPLICATIONS_URL@ + package_name + TOKENS_PATH@ + purchase_token
}

/// The address at which a subscription is acknowledged.
pub open spec fn spec_acknowledge_url(package_name: Seq<char>, purchase_token: Seq<char>) -> Seq<
    char,
> {
    spec_subscription_url(package_name, purchase_token) + ACKNOWLEDGE_SUFFIX@
}

/// The address of a subscription's detail.
pub fn subscription_url(package_name: &str, purchase_token: &str) -> (url: String)
    ensures
        url@ == spec_subscription_url(package_name@, purchase_token@),
{
    String::from_str(APPLICATIONS_URL).concat(package_name).concat(TOKENS_PATH).concat(
        purchase_token,
    )
}

/// How the provider answered a request, or why it did not.
#[derive(Debug, Clone, PartialEq, Eq)]
pub enum ProviderReply<T> {
    /// The service's own access token could not be had.
    NoAccessToken { reason: String },
    /// The request got no answer; `connect` and `timeout` say whether the
    /// connection failed or the time ran out.
    Unreachable { connect: bool, timeout: bool, reason: String },
    /// The provider answered with a status outside the successful ones.
    Refused { status: String, body: String },
    /// The provider answered with success.
    Answered(T),
}

/// The error of a request that got no answer: a network error where the
/// connection failed or the time ran out, a connection error otherwise.
pub open spec fn spec_transport_error(connect: bool, timeout: bool, reason: Seq<char>) -> ErrorView {
    if connect || timeout {
        ErrorView::with_detail(ErrorKind::NetworkError, reason)
    } else {
        ErrorView::with_detail(ErrorKind::GooglePlayConnection, reason)
    }
}

/// The error of a request that got no answer.
pub fn transport_error(connect: bool, timeout: bool, reason: String) -> (e: AppError)
    ensures
        e@ == spec_transport_error(connect, timeout, reason@),
{
    if connect || timeout {
        AppError::NetworkError(reason)
    } else {
        AppError::GooglePlayConnection(reason)
    }
}

/// The request for a subscription's detail: it needs the authorization
/// service, and goes to the subscription's address.
pub fn fetch_google_play_purchase_details(
    package_name: &str,
    purchase_token: &str,
    auth_available: bool,
) -> (r: AppResult<String>)
    ensures
        auth_available ==> r is Ok && r->Ok_0@ == spec_subscription_url(
            package_name@,
            purchase_token@,
        ),
        !auth_available ==> r is Err && r->Err_0@ == ErrorView::plain(
            ErrorKind::AuthServiceUnavailable,
        ),
{
    if !auth_available {
        return Err(AppError::AuthServiceUnavailable);
    }
    Ok(subscription_url(package_name, purchase_token))
}

/// What the reply to a request for a subscription's detail comes to. The
/// answer carries what parsing its body gave: the detail, or why the body is
/// none.
pub open spec fn spec_fetch_outcome(
    reply: ProviderReply<Result<GooglePlaySubscriptionResponse, String>>,
) -> Result<GooglePlaySubscriptionResponse, ErrorView> {
    match reply {
        ProviderReply::NoAccessToken { reason } => Err(
            ErrorView::with_detail(ErrorKind::AccessTokenFailed, reason@),
        ),
        ProviderReply::Unreachable { connect, timeout, reason } => Err(
            spec_transport_error(connect, timeout, reason@),
        ),
        ProviderReply::Refused { status, body } => Err(
            ErrorView::with_detail(
                ErrorKind::GooglePlayApi,
                "API returned error status: "@ + status@,
            ),
        ),
        ProviderReply::Answered(Err(reason)) => Err(
            ErrorView::with_detail(ErrorKind::GooglePlayResponseParse, reason@),
        ),
        ProviderReply::Answered(Ok(detail)) => Ok(detail),
    }
}

/// Reads the reply to a request for a subscription's detail.
pub fn fetch_outcome(reply: ProviderReply<Result<GooglePlaySubscriptionResponse, String>>) -> (r:
    AppResult<GooglePlaySubscriptionResponse>)
    ensures
        match spec_fetch_outcome(reply) {
            Ok(detail) => r == Ok::<GooglePlaySubscriptionResponse, AppError>(detail),
            Err(e) => r is Err && r->Err_0@ == e,
        },
{
    match reply {
        ProviderReply::NoAccessToken { reason } => Err(AppError::AccessTokenFailed(reason)),
        ProviderReply::Unreachable { connect, timeout, reason } => Err(
            transport_error(connect, timeout, reason),
        ),
        ProviderReply::Refused { status, body } => Err(
            AppError::GooglePlayApi(
                String::from_str("API returned error status: ").concat(status.as_str()),
            ),
        ),
        ProviderReply::Answered(Err(reason)) => Err(AppError::GooglePlayResponseParse(reason)),
        ProviderReply::Answered(Ok(detail)) => Ok(detail),
    }
}

/// The request that acknowledges a purchase, if one is due. Where the detail
/// does not say that an acknowledgment is pending, nothing is sent, and the
/// authorization service is not needed either.
pub fn acknowledge_google_play(
    package_name: &str,
    purchase_token: &str,
    subscription_response: &GooglePlaySubscriptionResponse,
    auth_available: bool,
) -> (r: AppResult<Option<String>>)
    ensures
        !spec_acknowledgement_pending(*subscription_response) ==> r == Ok::<
            Option<String>,
            AppError,
        >(None),
        spec_acknowledgement_pending(*subscription_response) && !auth_available ==> r is Err
            && r->Err_0@ == ErrorView::plain(ErrorKind::AuthServiceUnavailable),
        spec_acknowledgement_pending(*subscription_response) && auth_available ==> r is Ok
            && r->Ok_0 is Some && r->Ok_0->Some_0@ == spec_acknowledge_url(
            package_name@,
            purchase_token@,
        ),
{
    if !acknowledgement_pending(subscription_response) {
        return Ok(None);
    }
    if !auth_available {
        return Err(AppError::AuthServiceUnavailable);
    }
    Ok(Some(subscription_url(package_name, purchase_token).concat(ACKNOWLEDGE_SUFFIX)))
}

/// What the reply to an acknowledgment comes to.
pub open spec fn spec_acknowledge_outcome(reply: ProviderReply<()>) -> Result<(), ErrorView> {
    match reply {
        ProviderReply::NoAccessToken { reason } => Err(
            ErrorView::with_detail(ErrorKind::AccessTokenFailed, reason@),
        ),
        ProviderReply::Unreachable { connect, timeout, reason } => Err(
            spec_transport_error(connect, timeout, reason@),
        ),
        ProviderReply::Refused { status, body } => Err(
            ErrorView::with_detail(ErrorKind::GooglePlayApi, "Acknowledgment failed: "@ + body@),
        ),
        ProviderReply::Answered(_) => Ok(()),
    }
}

/// Reads the reply to an acknowledgment.
pub fn acknowledge_outcome(reply: ProviderReply<()>) -> (r: AppResult<()>)
    ensures
        crate::error::result_view(r) == spec_acknowledge_outcome(reply),
{
    match reply {
        ProviderReply::NoAccessToken { reason } => Err(AppError::AccessTokenFailed(reason)),
        ProviderReply::Unreachable { connect, timeout, reason } => Err(
            transport_error(connect, timeout, reason),
        ),
        ProviderReply::Refused { status, body } => Err(
            AppError::GooglePlayApi(
                String::from_str("Acknowledgment failed: ").concat(body.as_str()),
            ),
        ),
        ProviderReply::Answered(_) => Ok(()),
    }
}

} // verus!
