//! The subscription states that the provider reports.

use vstd::prelude::*;

verus! {

pub const SUBSCRIPTION_STATE_UNSPECIFIED: &'static str = "SUBSCRIPTION_STATE_UNSPECIFIED";

pub const SUBSCRIPTION_STATE_PENDING: &'static str = "SUBSCRIPTION_STATE_PENDING";

pub const SUBSCRIPTION_STATE_ACTIVE: &'static str = "SUBSCRIPTION_STATE_ACTIVE";

pub const SUBSCRIPTION_STATE_PAUSED: &'static str = "SUBSCRIPTION_STATE_PAUSED";

pub const SUBSCRIPTION_STATE_IN_GRACE_PERIOD: &'static str = "SUBSCRIPTION_STATE_IN_GRACE_PERIOD";

pub const SUBSCRIPTION_STATE_ON_HOLD: &'static str = "SUBSCRIPTION_STATE_ON_HOLD";

pub const SUBSCRIPTION_STATE_CANCELED: &'static str = "SUBSCRIPTION_STATE_CANCELED";

pub const SUBSCRIPTION_STATE_EXPIRED: &'static str = "SUBSCRIPTION_STATE_EXPIRED";

} // verus!
