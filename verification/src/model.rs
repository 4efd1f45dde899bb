//! The persisted record of a purchase token.

use vstd::prelude::*;
use crate::outside::{fresh_id, now_utc};
use crate::time::Timestamp;
use crate::types::PurchaseTokenStatus;

verus! {

/// The local record of one purchase token.
#[derive(Debug, Clone, PartialEq, Eq)]
pub struct PurchaseToken {
    pub id: String,
    pub user_id: String,
    pub purchase_token: String,
    pub status: PurchaseTokenStatus,
    pub created_at: Timestamp,
    pub expiry_at: Timestamp,
}

/// What a record holds, as plain values.
pub struct TokenRecord {
    pub id: Seq<char>,
    pub user_id: Seq<char>,
    pub purchase_token: Seq<char>,
    pub status: PurchaseTokenStatus,
    pub created_at: Timestamp,
    pub expiry_at: Timestamp,
}

impl View for PurchaseToken {
    type V = TokenRecord;

    open spec fn view(&self) -> TokenRecord {
        TokenRecord {
            id: self.id@,
            user_id: self.user_id@,
            purchase_token: self.purchase_token@,
            status: self.status,
            created_at: self.created_at,
            expiry_at: self.expiry_at,
        }
    }
}

impl TokenRecord {
    /// The record grants access at `now`: its status says so and its expiry
    /// lies in the future.
    pub open spec fn grants_access_at(self, now: Timestamp) -> bool {
        self.status == PurchaseTokenStatus::AccessGranted && self.expiry_at.is_after(now)
    }
}

impl PurchaseToken {
    /// A record for a token that was first seen now: it gets a fresh
    /// identifier and the current time as its creation time.
    pub fn new(
        user_id: String,
        purchase_token: String,
        expiry_at: Timestamp,
        status: PurchaseTokenStatus,
    ) -> (record: Self)
        ensures
            record.user_id == user_id,
            record.purchase_token == purchase_token,
            record.expiry_at == expiry_at,
            record.status == status,
            record.id@.len() == 36,
            record.created_at.nanos < 1_000_000_000,
    {
        Self::with_identity(fresh_id(), now_utc(), user_id, purchase_token, expiry_at, status)
    }

    /// A record with the given identifier and creation time.
    pub fn with_identity(
        id: String,
        created_at: Timestamp,
        user_id: String,
        purchase_token: String,
        expiry_at: Timestamp,
        status: PurchaseTokenStatus,
    ) -> (record: Self)
        ensures
            record == (PurchaseToken { id, user_id, purchase_token, status, created_at, expiry_at }),
    {
        Self { id, user_id, purchase_token, status, created_at, expiry_at }
    }

    /// A copy of the record.
    pub fn duplicate(&self) -> (copy: Self)
        ensures
            copy@ == self@,
    {
        Self {
            id: self.id.clone(),
            user_id: self.user_id.clone(),
            purchase_token: self.purchase_token.clone(),
            status: self.status,
            created_at: self.created_at,
            expiry_at: self.expiry_at,
        }
    }
}

} // verus!
