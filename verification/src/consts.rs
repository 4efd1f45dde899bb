//! Constants of the paid plan.

use vstd::prelude::*;

verus! {

/// The video credits that the paid plan allots.
pub const YRAL_PRO_CREDIT_ALLOTMENT: u32 = 30;

} // verus!
