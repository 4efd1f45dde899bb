//! The cache of the service's own access token for the provider's API.
//!
//! Acquiring a token costs a round trip, so a token is kept for as long as
//! it is valid. The cache is an object that its owner holds and hands the
//! time to: it reads no clock and is no global. It is used by reading it,
//! and, where that gives nothing, by acquiring a token, storing it and
//! reading again.

use vstd::prelude::*;
use crate::time::Timestamp;

verus! {

/// The authorization scope that the provider's publisher API asks for.
pub const ANDROID_PUBLISHER_SCOPE: &'static str =
    "https://www.googleapis.com/auth/androidpublisher";

/// An access token and the time at which it ceases to be valid.
#[derive(Debug, Clone, PartialEq, Eq)]
pub struct AccessToken {
    pub value: String,
    pub expires_at: Timestamp,
}

/// The cache: the token that was acquired last, if any.
#[derive(Debug, Clone, PartialEq, Eq)]
pub struct TokenCache {
    cached: Option<AccessToken>,
}

impl View for TokenCache {
    type V = Option<(Seq<char>, Timestamp)>;

    closed spec fn view(&self) -> Option<(Seq<char>, Timestamp)> {
        match self.cached {
            Some(token) => Some((token.value@, token.expires_at)),
            None => None,
        }
    }
}

/// The token that a cache offers at the time `now`: the one it holds, while
/// that is still valid.
pub open spec fn usable_at(cache: Option<(Seq<char>, Timestamp)>, now: Timestamp) -> Option<
    Seq<char>,
> {
    match cache {
        Some((value, expires_at)) => if expires_at.is_after(now) {
            Some(value)
        } else {
            None
        },
        None => None,
    }
}

impl TokenCache {
    /// A cache that holds nothing.
    pub fn new() -> (cache: TokenCache)
        ensures
            cache@ is None,
    {
        TokenCache { cached: None }
    }

    /// The token to use at the time `now`, if the cache holds one that is
    /// still valid; `None` says that a token has to be acquired.
    pub fn current(&self, now: Timestamp) -> (token: Option<String>)
        ensures
            match token {
                Some(value) => usable_at(self@, now) == Some(value@),
                None => usable_at(self@, now) is None,
            },
    {
        match &self.cached {
            Some(token) => {
                if token.expires_at.after(&now) {
                    Some(token.value.clone())
                } else {
                    None
                }
            },
            None => None,
        }
    }

    /// Puts a token that was just acquired in place of whatever was held.
    pub fn store(&mut self, value: String, expires_at: Timestamp)
        ensures
            final(self)@ == Some((value@, expires_at)),
    {
        self.cached = Some(AccessToken { value, expires_at });
    }

    /// Reading after storing gives the token that was stored, at every time
    /// before its expiry, and nothing from its expiry on.
    pub proof fn law_read_after_store(value: Seq<char>, expires_at: Timestamp, now: Timestamp)
        ensures
            usable_at(Some((value, expires_at)), now) == if expires_at.is_after(now) {
                Some(value)
            } else {
                None
            },
    {
    }
}

} // verus!
