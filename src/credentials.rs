//! Token cache of the service-principal scheme, with single-flight refresh.
//!
//! The cache decides; the caller performs the token exchange when told to
//! and reports its outcome back.

use crate::signer::AuthMaterial;
use vstd::prelude::*;

verus! {

/// A bearer token and the instant (seconds) at which it expires.
#[derive(Debug, Clone)]
pub struct CachedToken {
    pub access_token: String,
    pub expires_at: u64,
}

/// The token exchange failed; carries the failure's description.
#[derive(Debug, Clone)]
pub struct AuthError {
    pub reason: String,
}

/// What a caller that needs a token must do.
#[derive(Debug)]
pub enum TokenDecision {
    /// Use this cached token.
    Use(String),
    /// Perform the exchange, then report it with `complete_refresh`.
    Refresh,
    /// Another caller's exchange is in flight: wait for its outcome.
    Wait,
}

/// Cached token of one client, and whether an exchange is in flight.
#[derive(Debug)]
pub struct TokenCache {
    pub token: Option<CachedToken>,
    pub refreshing: bool,
    /// A token counts as expired this many seconds before `expires_at`.
    pub safety_margin: u64,
}

/// A token is used only while `now < expires_at - margin`.
pub open spec fn token_usable(t: CachedToken, now: u64, margin: u64) -> bool {
    now + margin < t.expires_at
}

/// Whether the cache holds a token usable at `now`.
pub open spec fn cache_fresh(c: TokenCache, now: u64) -> bool {
    c.token matches Some(t) && token_usable(t, now, c.safety_margin)
}

/// Cache after a caller asks for a token at `now`.
pub open spec fn acquire_state(c: TokenCache, now: u64) -> TokenCache {
    if cache_fresh(c, now) || c.refreshing {
        c
    } else {
        TokenCache { refreshing: true, ..c }
    }
}

/// Whether asking for a token at `now` starts an exchange.
pub open spec fn acquire_refreshes(c: TokenCache, now: u64) -> bool {
    !cache_fresh(c, now) && !c.refreshing
}

/// Number of exchanges started by callers asking at the instants `nows`, in
/// order, while no exchange completes.
pub open spec fn refreshes_started(c: TokenCache, nows: Seq<u64>) -> nat
    decreases nows.len(),
{
    if nows.len() == 0 {
        0
    } else {
        (if acquire_refreshes(c, nows[0]) {
            1nat
        } else {
            0nat
        }) + refreshes_started(acquire_state(c, nows[0]), nows.drop_first())
    }
}

impl TokenCache {
    /// An empty cache.
    pub fn new(safety_margin: u64) -> (r: Self)
        ensures
            r.token is None,
            !r.refreshing,
            r.safety_margin == safety_margin,
    {
        TokenCache { token: None, refreshing: false, safety_margin }
    }

    /// Decides how a caller at `now` gets a token: a usable cached token is
    /// handed out; otherwise the first caller starts the one exchange and
    /// later callers wait for it.
    pub fn acquire(&mut self, now: u64) -> (r: TokenDecision)
        ensures
            *final(self) == acquire_state(*old(self), now),
            cache_fresh(*old(self), now) ==> r == TokenDecision::Use(
                old(self).token.unwrap().access_token,
            ),
            !cache_fresh(*old(self), now) && old(self).refreshing ==> r is Wait,
            acquire_refreshes(*old(self), now) ==> r is Refresh,
    {
        let fresh = match &self.token {
            Some(t) => now < t.expires_at && t.expires_at - now > self.safety_margin,
            None => false,
        };
        if fresh {
            match &self.token {
                Some(t) => TokenDecision::Use(t.access_token.clone()),
                None => TokenDecision::Wait,
            }
        } else if self.refreshing {
            TokenDecision::Wait
        } else {
            self.refreshing = true;
            TokenDecision::Refresh
        }
    }

    /// Records the outcome of the exchange in flight: a new token is cached
    /// and handed out; a failure is handed out and the old token is kept.
    /// Either way no exchange is in flight afterwards.
    pub fn complete_refresh(&mut self, outcome: Result<CachedToken, AuthError>) -> (r: Result<
        String,
        AuthError,
    >)
        ensures
            !final(self).refreshing,
            final(self).safety_margin == old(self).safety_margin,
            match outcome {
                Ok(t) => final(self).token == Some(t) && r == Ok::<String, AuthError>(
                    t.access_token,
                ),
                Err(e) => final(self).token == old(self).token && r == Err::<String, AuthError>(e),
            },
    {
        self.refreshing = false;
        match outcome {
            Ok(t) => {
                let access = t.access_token.clone();
                self.token = Some(t);
                Ok(access)
            },
            Err(e) => Err(e),
        }
    }
}

/// The credential of a client: a static shared secret, or a service
/// principal whose bearer tokens are cached.
#[derive(Debug)]
pub enum Credential {
    SharedKey(String),
    ServicePrincipal {
        tenant_id: String,
        client_id: String,
        client_secret: String,
        cache: TokenCache,
    },
}

/// What a caller that is about to sign a request must do.
#[derive(Debug)]
pub enum MaterialDecision {
    /// Sign with this material.
    Ready(AuthMaterial),
    /// Perform the token exchange, then report it with `complete_refresh`.
    Refresh,
    /// Another caller's token exchange is in flight: wait for its outcome.
    Wait,
}

impl Credential {
    /// Signing material at `now`: the secret of a shared key as it is; for a
    /// service principal, the token cache decides.
    pub fn auth_material(&mut self, now: u64) -> (r: MaterialDecision)
        ensures
            match *old(self) {
                Credential::SharedKey(secret) => *final(self) == *old(self) && r
                    == MaterialDecision::Ready(AuthMaterial::SharedKey(secret)),
                Credential::ServicePrincipal { tenant_id, client_id, client_secret, cache } => {
                    &&& *final(self) == (Credential::ServicePrincipal {
                        tenant_id,
                        client_id,
                        client_secret,
                        cache: acquire_state(cache, now),
                    })
                    &&& cache_fresh(cache, now) ==> r == MaterialDecision::Ready(
                        AuthMaterial::Bearer(cache.token.unwrap().access_token),
                    )
                    &&& !cache_fresh(cache, now) && cache.refreshing ==> r is Wait
                    &&& acquire_refreshes(cache, now) ==> r is Refresh
                },
            },
    {
        match self {
            Credential::SharedKey(secret) => MaterialDecision::Ready(
                AuthMaterial::SharedKey(secret.clone()),
            ),
            Credential::ServicePrincipal { cache, .. } => match cache.acquire(now) {
                TokenDecision::Use(t) => MaterialDecision::Ready(AuthMaterial::Bearer(t)),
                TokenDecision::Refresh => MaterialDecision::Refresh,
                TokenDecision::Wait => MaterialDecision::Wait,
            },
        }
    }
}

/// Single flight: however many callers ask for a token, at whatever
/// instants, at most one exchange starts until one completes. None starts
/// while one is in flight, none while the cached token stays usable, and a
/// first call that finds the token expired starts exactly one.
pub proof fn lemma_single_flight(c: TokenCache, nows: Seq<u64>)
    ensures
        refreshes_started(c, nows) <= 1,
        c.refreshing ==> refreshes_started(c, nows) == 0,
        (forall|i: int| 0 <= i < nows.len() ==> #[trigger] cache_fresh(c, nows[i]))
            ==> refreshes_started(c, nows) == 0,
        nows.len() > 0 && !c.refreshing && !cache_fresh(c, nows[0]) ==> refreshes_started(
            c,
            nows,
        ) == 1,
    decreases nows.len(),
{
    if nows.len() > 0 {
        let c2 = acquire_state(c, nows[0]);
        let rest = nows.drop_first();
        lemma_single_flight(c2, rest);
        lemma_in_flight_starts_none(c2, rest);
        if forall|i: int| 0 <= i < nows.len() ==> #[trigger] cache_fresh(c, nows[i]) {
            assert(cache_fresh(c, nows[0]));
            assert forall|i: int| 0 <= i < rest.len() implies #[trigger] cache_fresh(c2, rest[i]) by {
                assert(cache_fresh(c, nows[i + 1]));
            }
        }
    }
}

/// While an exchange is in flight, asking for a token starts none.
proof fn lemma_in_flight_starts_none(c: TokenCache, nows: Seq<u64>)
    ensures
        c.refreshing ==> refreshes_started(c, nows) == 0,
    decreases nows.len(),
{
    if nows.len() > 0 {
        lemma_in_flight_starts_none(acquire_state(c, nows[0]), nows.drop_first());
    }
}

} // verus!
