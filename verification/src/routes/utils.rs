//! The entitlement gateway and the reading of a subscription's detail as
//! plain JSON.

use vstd::prelude::*;
use vstd::string::*;
use crate::consts::YRAL_PRO_CREDIT_ALLOTMENT;
use crate::error::{result_view, AppError, AppResult, ErrorKind, ErrorView};
use crate::outside::{
    json_as_str, json_get, json_member, json_text, principal_from_text, principal_of_text,
    principal_view, text_view,
};
use crate::routes::goole_play_billing_helpers::{
    spec_transport_error, transport_error, ProviderReply,
};
use crate::routes::purchase_token_helpers::SubscriptionState;

verus! {

/// What the subscription state in a detail says to a request for access,
/// given the member `subscriptionState` of the detail, and, where there is
/// one, the text that it holds. A detail without the member has no state; a
/// member that is no text, or whose text names no state that lets the request
/// proceed, turns the request down.
pub open spec fn spec_state_verdict(member: Option<Option<Seq<char>>>) -> Option<ErrorView> {
    match member {
        None => Some(ErrorView::plain(ErrorKind::SubscriptionNoState)),
        Some(None) => Some(ErrorView::plain(ErrorKind::SubscriptionInvalidState)),
        Some(Some(text)) => match SubscriptionState::spec_parse(text).spec_refusal() {
            Some(e) => Some(e@),
            None => None,
        },
    }
}

/// The member `subscriptionState` of a detail and the text that it holds.
pub open spec fn spec_state_member(json: serde_json::Value) -> Option<Option<Seq<char>>> {
    match json_member(json, "subscriptionState"@) {
        None => None,
        Some(state) => Some(json_text(state)),
    }
}

/// Decides on the subscription state of a detail from its member
/// `subscriptionState`: `None` where the detail has no such member,
/// `Some(None)` where the member is no text.
pub fn state_verdict(member: Option<Option<&str>>) -> (r: AppResult<()>)
    ensures
        match spec_state_verdict(
            match member {
                None => None,
                Some(text) => Some(text_view(text)),
            },
        ) {
            Some(e) => r is Err && r->Err_0@ == e,
            None => r is Ok,
        },
{
    match member {
        None => Err(AppError::SubscriptionNoState),
        Some(None) => Err(AppError::SubscriptionInvalidState),
        Some(Some(text)) => match SubscriptionState::parse(text) {
            SubscriptionState::Active | SubscriptionState::InGracePeriod => Ok(()),
            SubscriptionState::Canceled => Err(AppError::SubscriptionCanceled),
            SubscriptionState::OnHold => Err(AppError::SubscriptionOnHold),
            SubscriptionState::Paused => Err(AppError::SubscriptionPaused),
            SubscriptionState::Expired => Err(AppError::SubscriptionExpired),
            SubscriptionState::Unrecognized => Err(AppError::SubscriptionInvalidState),
        },
    }
}

/// Checks the subscription state of a detail that came as plain JSON.
pub fn check_detail_state(json: &serde_json::Value) -> (r: AppResult<()>)
    ensures
        match spec_state_verdict(spec_state_member(*json)) {
            Some(e) => r is Err && r->Err_0@ == e,
            None => r is Ok,
        },
{
    match json_get(json, "subscriptionState") {
        None => state_verdict(None),
        Some(state) => state_verdict(Some(json_as_str(state))),
    }
}

/// What the reply to a request for a subscription's detail comes to, where
/// the detail is taken as plain JSON: the detail itself where its state lets
/// a request for access proceed, and an error otherwise.
pub open spec fn spec_valid_detail(reply: ProviderReply<Result<serde_json::Value, String>>) -> Result<
    serde_json::Value,
    ErrorView,
> {
    match reply {
        ProviderReply::NoAccessToken { reason } => Err(
            ErrorView::with_detail(ErrorKind::AccessTokenFailed, reason@),
        ),
        ProviderReply::Unreachable { connect, timeout, reason } => Err(
            spec_transport_error(connect, timeout, reason@),
        ),
        ProviderReply::Refused { status, body } => Err(
            ErrorView::with_detail(
                ErrorKind::GooglePlayApi,
                "API returned error status: "@ + status@,
            ),
        ),
        ProviderReply::Answered(Err(reason)) => Err(
            ErrorView::with_detail(ErrorKind::GooglePlayResponseParse, reason@),
        ),
        ProviderReply::Answered(Ok(json)) => match spec_state_verdict(spec_state_member(json)) {
            Some(e) => Err(e),
            None => Ok(json),
        },
    }
}

/// Reads the reply to a request for a subscription's detail and hands the
/// detail on only where its subscription state lets a request for access
/// proceed.
pub fn get_valid_google_play_purchase_token_detail(
    reply: ProviderReply<Result<serde_json::Value, String>>,
) -> (r: Result<serde_json::Value, AppError>)
    ensures
        match spec_valid_detail(reply) {
            Ok(json) => r == Ok::<serde_json::Value, AppError>(json),
            Err(e) => r is Err && r->Err_0@ == e,
        },
{
    match reply {
        ProviderReply::NoAccessToken { reason } => Err(AppError::AccessTokenFailed(reason)),
        ProviderReply::Unreachable { connect, timeout, reason } => Err(
            transport_error(connect, timeout, reason),
        ),
        ProviderReply::Refused { status, body } => Err(
            AppError::GooglePlayApi(
                String::from_str("API returned error status: ").concat(status.as_str()),
            ),
        ),
        ProviderReply::Answered(Err(reason)) => Err(AppError::GooglePlayResponseParse(reason)),
        ProviderReply::Answered(Ok(json)) => match check_detail_state(&json) {
            Ok(()) => Ok(json),
            Err(e) => Err(e),
        },
    }
}

/// The allotment of the paid plan.
#[derive(Debug, Clone, Copy, PartialEq, Eq, Structural)]
pub struct YralProSubscription {
    pub total_video_credits_alloted: u32,
    pub free_video_credits_left: u32,
}

/// A plan on the entitlement ledger.
#[derive(Debug, Clone, Copy, PartialEq, Eq, Structural)]
pub enum SubscriptionPlan {
    Free,
    Pro(YralProSubscription),
}

/// A request to the entitlement ledger: the account, as the bytes of its
/// principal, and the plan it is put on. Issuing it twice leaves the ledger
/// as issuing it once does.
#[derive(Debug, Clone, PartialEq, Eq)]
pub struct PlanChange {
    pub principal: Vec<u8>,
    pub plan: SubscriptionPlan,
}

/// The paid plan with its full allotment.
pub open spec fn spec_pro_plan() -> SubscriptionPlan {
    SubscriptionPlan::Pro(
        YralProSubscription {
            total_video_credits_alloted: YRAL_PRO_CREDIT_ALLOTMENT,
            free_video_credits_left: YRAL_PRO_CREDIT_ALLOTMENT,
        },
    )
}

/// The request that puts `user_id` on `plan`, given what parsing the identity
/// gave: an identity that is no principal is an internal error.
pub open spec fn spec_plan_change(
    parsed: Result<Seq<u8>, Seq<char>>,
    plan: SubscriptionPlan,
) -> Result<(Seq<u8>, SubscriptionPlan), ErrorView> {
    match parsed {
        Ok(bytes) => Ok((bytes, plan)),
        Err(reason) => Err(ErrorView::with_detail(ErrorKind::InternalError, reason)),
    }
}

/// A request to the ledger, as plain values.
pub open spec fn plan_change_view(r: AppResult<PlanChange>) -> Result<
    (Seq<u8>, SubscriptionPlan),
    ErrorView,
> {
    match r {
        Ok(change) => Ok((change.principal@, change.plan)),
        Err(e) => Err(e@),
    }
}

/// Builds the request to the ledger from what parsing the identity gave.
pub fn plan_change(parsed: Result<Vec<u8>, String>, plan: SubscriptionPlan) -> (r: AppResult<
    PlanChange,
>)
    ensures
        plan_change_view(r) == spec_plan_change(principal_view(parsed), plan),
{
    match parsed {
        Ok(principal) => Ok(PlanChange { principal, plan }),
        Err(reason) => Err(AppError::InternalError(reason)),
    }
}

/// The request that takes the paid plan from `user_id`: the account is put
/// back on the free plan.
pub fn revoke_yral_pro_plan_access(user_id: &str) -> (r: AppResult<PlanChange>)
    ensures
        plan_change_view(r) == spec_plan_change(
            principal_of_text(user_id@),
            SubscriptionPlan::Free,
        ),
        r is Ok ==> r->Ok_0.principal@.len() <= 29,
{
    plan_change(principal_from_text(user_id), SubscriptionPlan::Free)
}

/// The request that grants the paid plan to `user_id`, with the full
/// allotment of credits.
pub fn grant_yral_pro_plan_access(user_id: &str) -> (r: AppResult<PlanChange>)
    ensures
        plan_change_view(r) == spec_plan_change(principal_of_text(user_id@), spec_pro_plan()),
        r is Ok ==> r->Ok_0.principal@.len() <= 29,
{
    plan_change(
        principal_from_text(user_id),
        SubscriptionPlan::Pro(
            YralProSubscription {
                total_video_credits_alloted: YRAL_PRO_CREDIT_ALLOTMENT,
                free_video_credits_left: YRAL_PRO_CREDIT_ALLOTMENT,
            },
        ),
    )
}

/// What the ledger's reply comes to: a failure, which carries the ledger's
/// message, is a failure to grant service access.
pub fn ledger_outcome(reply: Result<(), String>) -> (r: AppResult<()>)
    ensures
        result_view(r) == match reply {
            Ok(()) => Ok::<(), ErrorView>(()),
            Err(reason) => Err(ErrorView::with_detail(ErrorKind::ServiceAccessFailed, reason@)),
        },
{
    match reply {
        Ok(()) => Ok(()),
        Err(reason) => Err(AppError::ServiceAccessFailed(reason)),
    }
}

} // verus!
