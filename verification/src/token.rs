//! The token value: what the issuer granted, when, and for how long.

use vstd::prelude::*;
use crate::strings::{contains, names};

verus! {

/// Safety margin, in seconds, taken off a token's lifetime before it counts as
/// expired locally.
pub const EXPIRY_THRESHOLD: u64 = 10;

/// Nanoseconds in one second: clock readings are in nanoseconds, lifetimes in
/// seconds.
pub const NANOS_PER_SEC: u64 = 1_000_000_000;

/// The decoded fields of the issuer's payload.
#[derive(Clone, Debug)]
pub struct TokenData {
    pub expires_in: u64,
    pub access_token: String,
    pub scope: Vec<String>,
}

/// A bearer token as granted by the issuer, stamped with the clock reading at
/// which it was built.
#[derive(Debug)]
pub struct Token {
    expires_in: u64,
    access_token: String,
    scopes: Vec<String>,
    timestamp: u128,
}

/// The mathematical value of a token.
pub ghost struct TokenView {
    pub access_token: Seq<char>,
    pub scopes: Seq<Seq<char>>,
    pub lifetime: nat,
    pub issued_at: nat,
}

/// Every requested scope occurs among the granted ones.
pub open spec fn covers(granted: Seq<Seq<char>>, requested: Seq<Seq<char>>) -> bool {
    forall|i: int| 0 <= i < requested.len() ==> granted.contains(#[trigger] requested[i])
}

/// A token of the given lifetime (seconds), issued at `issued_at`, is no longer
/// usable at `now` (both clock readings in nanoseconds).
pub open spec fn expired(lifetime: nat, issued_at: nat, now: nat) -> bool {
    lifetime < EXPIRY_THRESHOLD || issued_at + (lifetime - EXPIRY_THRESHOLD) * NANOS_PER_SEC < now
}

/// The value of the token that a decoded payload describes when it is built
/// at clock reading `now`.
pub open spec fn issued(data: TokenData, now: nat) -> TokenView {
    TokenView {
        access_token: data.access_token@,
        scopes: names(data.scope@),
        lifetime: data.expires_in as nat,
        issued_at: now,
    }
}

impl View for Token {
    type V = TokenView;

    closed spec fn view(&self) -> TokenView {
        TokenView {
            access_token: self.access_token@,
            scopes: names(self.scopes@),
            lifetime: self.expires_in as nat,
            issued_at: self.timestamp as nat,
        }
    }
}

impl TokenView {
    /// The token grants every one of the requested scopes.
    pub open spec fn covers(self, requested: Seq<Seq<char>>) -> bool {
        covers(self.scopes, requested)
    }

    /// The token is no longer usable at clock reading `now`.
    pub open spec fn expired_at(self, now: nat) -> bool {
        expired(self.lifetime, self.issued_at, now)
    }
}

/// A token whose lifetime is shorter than the safety margin has expired at
/// every clock reading, the one at which it was issued included.
pub proof fn lemma_short_lifetime_expired(lifetime: nat, issued_at: nat, now: nat)
    requires
        lifetime < EXPIRY_THRESHOLD,
    ensures
        expired(lifetime, issued_at, now),
{
}

/// A token of a lifetime no shorter than the safety margin has not expired at
/// the clock reading at which it was issued.
pub proof fn lemma_fresh_token_usable(lifetime: nat, issued_at: nat)
    requires
        lifetime >= EXPIRY_THRESHOLD,
    ensures
        !expired(lifetime, issued_at, issued_at),
{
    assert((lifetime - EXPIRY_THRESHOLD) * NANOS_PER_SEC >= 0) by (nonlinear_arith)
        requires
            lifetime >= EXPIRY_THRESHOLD,
    ;
}

/// Once expired, a token stays expired.
pub proof fn lemma_expiry_is_final(lifetime: nat, issued_at: nat, now: nat, later: nat)
    requires
        expired(lifetime, issued_at, now),
        now <= later,
    ensures
        expired(lifetime, issued_at, later),
{
}

/// Scopes that cover a request cover every request made of scopes of that
/// one.
pub proof fn lemma_covers_subset(
    granted: Seq<Seq<char>>,
    requested: Seq<Seq<char>>,
    fewer: Seq<Seq<char>>,
)
    requires
        covers(granted, requested),
        forall|i: int| 0 <= i < fewer.len() ==> requested.contains(#[trigger] fewer[i]),
    ensures
        covers(granted, fewer),
{
    assert forall|i: int| 0 <= i < fewer.len() implies granted.contains(#[trigger] fewer[i]) by {
        let k = choose|k: int| 0 <= k < requested.len() && requested[k] == fewer[i];
        assert(granted.contains(requested[k]));
    }
}

impl Clone for Token {
    fn clone(&self) -> (copy: Token)
        ensures
            copy@ == self@,
    {
        let mut scopes: Vec<String> = Vec::new();
        let mut i: usize = 0;
        while i < self.scopes.len()
            invariant
                0 <= i <= self.scopes.len(),
                scopes@ == self.scopes@.take(i as int),
            decreases self.scopes.len() - i,
        {
            scopes.push(self.scopes[i].clone());
            assert(scopes@ =~= self.scopes@.take(i + 1));
            i += 1;
        }
        assert(scopes@ =~= self.scopes@);
        Token {
            expires_in: self.expires_in,
            access_token: self.access_token.clone(),
            scopes,
            timestamp: self.timestamp,
        }
    }
}

impl Token {
    /// Builds the token that the decoded payload describes, issued at `now`.
    pub fn new(data: TokenData, now: u128) -> (token: Token)
        ensures
            token@ == issued(data, now as nat),
    {
        Token {
            expires_in: data.expires_in,
            access_token: data.access_token,
            scopes: data.scope,
            timestamp: now,
        }
    }

    /// Whether the token has run out at clock reading `now`.
    pub fn is_expired(&self, now: u128) -> (r: bool)
        ensures
            r == self@.expired_at(now as nat),
    {
        if self.expires_in < EXPIRY_THRESHOLD {
            return true;
        }
        if now <= self.timestamp {
            return false;
        }
        let margin: u64 = self.expires_in - EXPIRY_THRESHOLD;
        assert(margin * NANOS_PER_SEC <= u64::MAX * NANOS_PER_SEC) by (nonlinear_arith)
            requires
                margin <= u64::MAX,
        ;
        let usable: u128 = (margin as u128) * (NANOS_PER_SEC as u128);
        usable < now - self.timestamp
    }

    /// Whether `scope` is one of the token's scopes.
    pub fn in_scope(&self, scope: String) -> (r: bool)
        ensures
            r == self@.scopes.contains(scope@),
    {
        contains(&self.scopes, &scope)
    }

    /// Whether the token grants every one of `scopes`.
    pub fn covers(&self, scopes: &Vec<String>) -> (r: bool)
        ensures
            r == self@.covers(names(scopes@)),
    {
        let mut i: usize = 0;
        while i < scopes.len()
            invariant
                0 <= i <= scopes.len(),
                forall|j: int|
                    0 <= j < i ==> self@.scopes.contains(#[trigger] names(scopes@)[j]),
            decreases scopes.len() - i,
        {
            if !contains(&self.scopes, &scopes[i]) {
                assert(!self@.scopes.contains(names(scopes@)[i as int]));
                return false;
            }
            i += 1;
        }
        true
    }

    /// Whether the token grants every one of `scopes`, for a caller that hands
    /// the list over.
    pub fn in_scopes(&self, scopes: Vec<String>) -> (r: bool)
        ensures
            r == self@.covers(names(scopes@)),
    {
        self.covers(&scopes)
    }

    /// The credential itself.
    pub fn access_token(&self) -> (r: &String)
        ensures
            r@ == self@.access_token,
    {
        &self.access_token
    }

    /// The scopes that the token grants.
    pub fn scopes(&self) -> (r: &Vec<String>)
        ensures
            names(r@) == self@.scopes,
    {
        &self.scopes
    }

    /// The lifetime that the issuer claimed, in seconds.
    pub fn expires_in(&self) -> (r: u64)
        ensures
            r == self@.lifetime,
    {
        self.expires_in
    }

    /// The clock reading at which the token was built, in nanoseconds.
    pub fn issued_at(&self) -> (r: u128)
        ensures
            r == self@.issued_at,
    {
        self.timestamp
    }
}

} // verus!
