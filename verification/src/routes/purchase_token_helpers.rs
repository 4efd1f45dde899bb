//! How the provider's subscription state is read.

use vstd::prelude::*;
use crate::error::{AppError, AppResult};
use crate::text::same_text;
use crate::types::google_play_subscription_state::{
    SUBSCRIPTION_STATE_ACTIVE, SUBSCRIPTION_STATE_CANCELED, SUBSCRIPTION_STATE_EXPIRED,
    SUBSCRIPTION_STATE_IN_GRACE_PERIOD, SUBSCRIPTION_STATE_ON_HOLD, SUBSCRIPTION_STATE_PAUSED,
};
use crate::types::GooglePlaySubscriptionResponse;

verus! {

/// The subscription states that reconciliation tells apart.
#[derive(Debug, Clone, Copy, PartialEq, Eq, Structural)]
pub enum SubscriptionState {
    Active,
    InGracePeriod,
    Canceled,
    OnHold,
    Paused,
    Expired,
    /// Any other text, the provider's pending and unspecified states included.
    Unrecognized,
}

/// What a subscription state asks reconciliation to do.
#[derive(Debug, Clone, Copy, PartialEq, Eq, Structural)]
pub enum TransitionDecision {
    /// Grant or maintain access.
    Proceed,
    /// Nothing now: access persists until the natural expiry.
    NoImmediateAction,
    /// Accepted, but nothing is granted.
    Suspend,
    /// Access ends.
    Revoke,
    /// The state is not one that can be acted on.
    Reject,
}

impl SubscriptionState {
    /// The state that the provider's text names.
    pub open spec fn spec_parse(text: Seq<char>) -> SubscriptionState {
        if text == SUBSCRIPTION_STATE_ACTIVE@ {
            SubscriptionState::Active
        } else if text == SUBSCRIPTION_STATE_CANCELED@ {
            SubscriptionState::Canceled
        } else if text == SUBSCRIPTION_STATE_IN_GRACE_PERIOD@ {
            SubscriptionState::InGracePeriod
        } else if text == SUBSCRIPTION_STATE_ON_HOLD@ {
            SubscriptionState::OnHold
        } else if text == SUBSCRIPTION_STATE_PAUSED@ {
            SubscriptionState::Paused
        } else if text == SUBSCRIPTION_STATE_EXPIRED@ {
            SubscriptionState::Expired
        } else {
            SubscriptionState::Unrecognized
        }
    }

    /// The decision that belongs to a state.
    pub open spec fn spec_decision(self) -> TransitionDecision {
        match self {
            SubscriptionState::Active | SubscriptionState::InGracePeriod => {
                TransitionDecision::Proceed
            },
            SubscriptionState::Canceled => TransitionDecision::NoImmediateAction,
            SubscriptionState::OnHold | SubscriptionState::Paused => TransitionDecision::Suspend,
            SubscriptionState::Expired => TransitionDecision::Revoke,
            SubscriptionState::Unrecognized => TransitionDecision::Reject,
        }
    }

    /// The error with which a request for access is turned down in a state
    /// that does not let it proceed.
    pub open spec fn spec_refusal(self) -> Option<AppError> {
        match self {
            SubscriptionState::Active | SubscriptionState::InGracePeriod => None,
            SubscriptionState::Canceled => Some(AppError::SubscriptionCanceled),
            SubscriptionState::OnHold => Some(AppError::SubscriptionOnHold),
            SubscriptionState::Paused => Some(AppError::SubscriptionPaused),
            SubscriptionState::Expired => Some(AppError::SubscriptionExpired),
            SubscriptionState::Unrecognized => Some(AppError::SubscriptionInvalidState),
        }
    }

    /// Reads the provider's state text.
    pub fn parse(text: &str) -> (state: SubscriptionState)
        ensures
            state == Self::spec_parse(text@),
    {
        if same_text(text, SUBSCRIPTION_STATE_ACTIVE) {
            SubscriptionState::Active
        } else if same_text(text, SUBSCRIPTION_STATE_CANCELED) {
            SubscriptionState::Canceled
        } else if same_text(text, SUBSCRIPTION_STATE_IN_GRACE_PERIOD) {
            SubscriptionState::InGracePeriod
        } else if same_text(text, SUBSCRIPTION_STATE_ON_HOLD) {
            SubscriptionState::OnHold
        } else if same_text(text, SUBSCRIPTION_STATE_PAUSED) {
            SubscriptionState::Paused
        } else if same_text(text, SUBSCRIPTION_STATE_EXPIRED) {
            SubscriptionState::Expired
        } else {
            SubscriptionState::Unrecognized
        }
    }

    /// The decision that belongs to the state.
    pub fn decision(&self) -> (d: TransitionDecision)
        ensures
            d == self.spec_decision(),
    {
        match self {
            SubscriptionState::Active | SubscriptionState::InGracePeriod => {
                TransitionDecision::Proceed
            },
            SubscriptionState::Canceled => TransitionDecision::NoImmediateAction,
            SubscriptionState::OnHold | SubscriptionState::Paused => TransitionDecision::Suspend,
            SubscriptionState::Expired => TransitionDecision::Revoke,
            SubscriptionState::Unrecognized => TransitionDecision::Reject,
        }
    }

    /// A request for access proceeds in exactly the states whose decision is
    /// to proceed; a suspended state is turned down with an error of the
    /// accepted-but-not-granted class.
    pub proof fn lemma_refusal_follows_decision(self)
        ensures
            self.spec_refusal() is None <==> self.spec_decision() == TransitionDecision::Proceed,
            self.spec_decision() == TransitionDecision::Suspend ==> self.spec_refusal() is Some
                && self.spec_refusal()->Some_0.is_soft_accept(),
            self.spec_refusal() is Some && self.spec_decision() != TransitionDecision::Suspend
                ==> self.spec_refusal()->Some_0.spec_status_code()
                == crate::error::STATUS_BAD_REQUEST,
    {
    }
}

/// The six state names are six different texts, so each is read as its own
/// state.
pub proof fn law_state_names_are_distinct()
    ensures
        SubscriptionState::spec_parse(SUBSCRIPTION_STATE_ACTIVE@) == SubscriptionState::Active,
        SubscriptionState::spec_parse(SUBSCRIPTION_STATE_CANCELED@) == SubscriptionState::Canceled,
        SubscriptionState::spec_parse(SUBSCRIPTION_STATE_IN_GRACE_PERIOD@)
            == SubscriptionState::InGracePeriod,
        SubscriptionState::spec_parse(SUBSCRIPTION_STATE_ON_HOLD@) == SubscriptionState::OnHold,
        SubscriptionState::spec_parse(SUBSCRIPTION_STATE_PAUSED@) == SubscriptionState::Paused,
        SubscriptionState::spec_parse(SUBSCRIPTION_STATE_EXPIRED@) == SubscriptionState::Expired,
{
    reveal_strlit("SUBSCRIPTION_STATE_ACTIVE");
    reveal_strlit("SUBSCRIPTION_STATE_CANCELED");
    reveal_strlit("SUBSCRIPTION_STATE_IN_GRACE_PERIOD");
    reveal_strlit("SUBSCRIPTION_STATE_ON_HOLD");
    reveal_strlit("SUBSCRIPTION_STATE_PAUSED");
    reveal_strlit("SUBSCRIPTION_STATE_EXPIRED");
    let active = SUBSCRIPTION_STATE_ACTIVE@;
    let canceled = SUBSCRIPTION_STATE_CANCELED@;
    let grace = SUBSCRIPTION_STATE_IN_GRACE_PERIOD@;
    let on_hold = SUBSCRIPTION_STATE_ON_HOLD@;
    let paused = SUBSCRIPTION_STATE_PAUSED@;
    let expired = SUBSCRIPTION_STATE_EXPIRED@;
    assert(active.len() == 25 && canceled.len() == 27 && grace.len() == 34);
    assert(on_hold.len() == 26 && paused.len() == 25 && expired.len() == 26);
    assert(active[19] != paused[19]);
    assert(on_hold[19] != expired[19]);
}

/// What a request for access is answered with, going by the state text alone.
pub open spec fn spec_active_status(state: Seq<char>) -> AppResult<()> {
    match SubscriptionState::spec_parse(state).spec_refusal() {
        None => Ok(()),
        Some(e) => Err(e),
    }
}

/// Lets a request for access through where the subscription is active or in
/// its grace period, and turns it down with the state's own error otherwise.
pub fn verify_subcription_response_for_active_status(
    subscription_response: &GooglePlaySubscriptionResponse,
) -> (r: AppResult<()>)
    ensures
        r == spec_active_status(subscription_response.subscription_state@),
{
    match SubscriptionState::parse(subscription_response.subscription_state.as_str()) {
        SubscriptionState::Active => Ok(()),
        SubscriptionState::Canceled => Err(AppError::SubscriptionCanceled),
        SubscriptionState::InGracePeriod => Ok(()),
        SubscriptionState::OnHold => Err(AppError::SubscriptionOnHold),
        SubscriptionState::Paused => Err(AppError::SubscriptionPaused),
        SubscriptionState::Expired => Err(AppError::SubscriptionExpired),
        SubscriptionState::Unrecognized => Err(AppError::SubscriptionInvalidState),
    }
}

} // verus!
