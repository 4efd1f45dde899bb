//! Numeric codes of the one-time product notifications.

use vstd::prelude::*;

verus! {

pub const ONE_TIME_PRODUCT_PURCHASED: i32 = 1;

pub const ONE_TIME_PRODUCT_CANCELED: i32 = 2;

} // verus!
