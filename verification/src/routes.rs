//! The reconciliation paths and the helpers they share.

pub mod credits;
pub mod goole_play_billing_helpers;
pub mod purchase;
pub mod purchase_token_helpers;
pub mod rtdn;
pub mod utils;
