//! The acknowledgement states that the provider reports.

use vstd::prelude::*;

verus! {

pub const ACKNOWLEDGEMENT_STATE_UNSPECIFIED: &'static str = "ACKNOWLEDGEMENT_STATE_UNSPECIFIED";

pub const ACKNOWLEDGEMENT_STATE_PENDING: &'static str = "ACKNOWLEDGEMENT_STATE_PENDING";

pub const ACKNOWLEDGEMENT_STATE_ACKNOWLEDGED: &'static str = "ACKNOWLEDGEMENT_STATE_ACKNOWLEDGED";

} // verus!
