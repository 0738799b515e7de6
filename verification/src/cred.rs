//! Credential lifecycle: one cached bearer credential with two expiry
//! horizons, and the decision whether to reuse, refresh, or re-acquire it.

use vstd::prelude::*;

use crate::err::KeycloakError;

verus! {

/// Safety margin, in seconds, kept between "now" and either expiry so a
/// token does not lapse during the return trip to the provider.
pub const EXPIRY_MARGIN: i64 = 5;

/// A bearer credential with absolute expiry instants, in seconds since the
/// Unix epoch, for both the access and the refresh token.
pub struct Credential {
    pub access_token: String,
    pub refresh_token: String,
    pub access_expiry: i64,
    pub refresh_expiry: i64,
}

impl Credential {
    /// A refresh token always outlives or matches the access token it was
    /// issued alongside.
    pub open spec fn wf(&self) -> bool {
        self.access_expiry <= self.refresh_expiry
    }
}

impl Clone for Credential {
    fn clone(&self) -> (r: Self)
        ensures
            r == *self,
    {
        Credential {
            access_token: self.access_token.clone(),
            refresh_token: self.refresh_token.clone(),
            access_expiry: self.access_expiry,
            refresh_expiry: self.refresh_expiry,
        }
    }
}

/// What `ensure_valid` must do for the current cache contents: reuse the
/// cached credential with no network call, exchange its refresh token, or
/// run a full password grant.
#[derive(Debug, PartialEq, Eq, Structural)]
pub enum CredAction {
    Reuse,
    Refresh,
    Acquire,
}

/// The decision table evaluated against wall-clock time `now`, with the
/// fixed safety margin subtracted from both horizons.
pub open spec fn spec_decide(slot: Option<Credential>, now: int) -> CredAction {
    match slot {
        Option::None => CredAction::Acquire,
        Option::Some(c) => if now < c.access_expiry - EXPIRY_MARGIN {
            CredAction::Reuse
        } else if now < c.refresh_expiry - EXPIRY_MARGIN {
            CredAction::Refresh
        } else {
            CredAction::Acquire
        },
    }
}

/// The single process-wide slot holding the most recent credential, or none.
///
/// Callers serialize access externally (one ensure/refresh/store sequence at
/// a time); the cache itself only evaluates the decision table and stores
/// replacement credentials wholesale.
pub struct CredentialCache {
    pub slot: Option<Credential>,
}

impl CredentialCache {
    /// The cache starts empty at process start.
    pub fn new() -> (c: Self)
        ensures
            c.slot is None,
    {
        CredentialCache { slot: Option::None }
    }

    /// Evaluate the decision table for wall-clock time `now`.
    pub fn decide(&self, now: i64) -> (a: CredAction)
        ensures
            a == spec_decide(self.slot, now as int),
    {
        match &self.slot {
            Option::None => CredAction::Acquire,
            Option::Some(c) => {
                if c.access_expiry >= i64::MIN + EXPIRY_MARGIN && now < c.access_expiry
                    - EXPIRY_MARGIN {
                    CredAction::Reuse
                } else if c.refresh_expiry >= i64::MIN + EXPIRY_MARGIN && now < c.refresh_expiry
                    - EXPIRY_MARGIN {
                    CredAction::Refresh
                } else {
                    CredAction::Acquire
                }
            },
        }
    }

    /// The refresh token of the cached credential, for a refresh grant;
    /// `None` while the cache is empty.
    pub fn refresh_token(&self) -> (t: Option<String>)
        ensures
            match self.slot {
                Option::Some(c) => t matches Option::Some(s) && s@ == c.refresh_token@,
                Option::None => t is None,
            },
    {
        match &self.slot {
            Option::Some(c) => Option::Some(c.refresh_token.clone()),
            Option::None => Option::None,
        }
    }

    /// A copy of the cached credential, for reuse while it is still fresh.
    pub fn cached(&self) -> (r: Option<Credential>)
        ensures
            r == self.slot,
    {
        match &self.slot {
            Option::Some(c) => Option::Some(c.clone()),
            Option::None => Option::None,
        }
    }

    /// Store a replacement credential wholesale; the previous contents are
    /// discarded. On a failed exchange nothing calls this, so the cache is
    /// left at its prior value.
    pub fn commit(&mut self, cred: Credential)
        ensures
            final(self).slot == Option::Some(cred),
    {
        self.slot = Option::Some(cred);
    }

    /// Write back the outcome of one grant exchange and hand it to the
    /// caller: a fresh credential replaces the cache wholesale, while a
    /// failure propagates unchanged and leaves the cache at its prior value
    /// (no partial overwrite).
    pub fn apply_exchange(&mut self, outcome: Result<Credential, KeycloakError>) -> (r: Result<
        Credential,
        KeycloakError,
    >)
        ensures
            match outcome {
                Result::Ok(c) => final(self).slot == Option::Some(c) && (r matches Ok(rc) && rc
                    == c),
                Result::Err(e) => final(self).slot == old(self).slot && r == Result::<
                    Credential,
                    KeycloakError,
                >::Err(e),
            },
    {
        match outcome {
            Ok(c) => {
                self.slot = Some(c.clone());
                Ok(c)
            },
            Err(e) => Err(e),
        }
    }
}

/// While the cached credential's access token is comfortably unexpired,
/// `ensure_valid` reuses it unchanged and issues no network call.
pub proof fn lemma_fresh_credential_reused(c: Credential, now: int)
    requires
        now < c.access_expiry - EXPIRY_MARGIN,
    ensures
        spec_decide(Option::Some(c), now) == CredAction::Reuse,
{
}

/// In the window where the access token is about to lapse but the refresh
/// token is not, `ensure_valid` performs exactly one refresh exchange.
pub proof fn lemma_refresh_window_refreshes(c: Credential, now: int)
    requires
        c.access_expiry - EXPIRY_MARGIN <= now < c.refresh_expiry - EXPIRY_MARGIN,
    ensures
        spec_decide(Option::Some(c), now) == CredAction::Refresh,
{
}

/// Once the refresh horizon is reached, and likewise when nothing is cached
/// at all, `ensure_valid` performs exactly one full password grant.
pub proof fn lemma_expired_or_empty_reacquires(slot: Option<Credential>, now: int)
    requires
        match slot {
            Option::Some(c) => c.wf() && now >= c.refresh_expiry - EXPIRY_MARGIN,
            Option::None => true,
        },
    ensures
        spec_decide(slot, now) == CredAction::Acquire,
{
}

} // verus!
