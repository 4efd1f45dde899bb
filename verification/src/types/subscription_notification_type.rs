//! Numeric codes of the subscription lifecycle notifications.

use vstd::prelude::*;

verus! {

pub const SUBSCRIPTION_RECOVERED: i32 = 1;

pub const SUBSCRIPTION_RENEWED: i32 = 2;

pub const SUBSCRIPTION_CANCELED: i32 = 3;

pub const SUBSCRIPTION_PURCHASED: i32 = 4;

pub const SUBSCRIPTION_ON_HOLD: i32 = 5;

pub const SUBSCRIPTION_IN_GRACE_PERIOD: i32 = 6;

pub const SUBSCRIPTION_RESTARTED: i32 = 7;

pub const SUBSCRIPTION_PRICE_CHANGE_CONFIRMED: i32 = 8;

pub const SUBSCRIPTION_DEFERRED: i32 = 9;

pub const SUBSCRIPTION_PAUSED: i32 = 10;

pub const SUBSCRIPTION_PAUSE_SCHEDULE_CHANGED: i32 = 11;

pub const SUBSCRIPTION_REVOKED: i32 = 12;

pub const SUBSCRIPTION_EXPIRED: i32 = 13;

} // verus!
