//! The application's `tenant_access_token`: how it is requested, how the
//! answer is read, and when a cached token may still be used.
//!
//! The HTTP exchange itself happens outside the library; the manager here
//! decides what to request, what the answer means, and which token to use.

use vstd::prelude::*;

use crate::clock::unix_seconds;
use crate::text::{decimal, push_decimal};

verus! {

/// An access token and the instant (seconds since the epoch) at which it
/// expires.
#[derive(Debug, Clone)]
pub struct TenantAccessToken {
    pub token: String,
    pub expire: u64,
}

impl TenantAccessToken {
    /// Whether the token has expired at instant `now`.
    pub open spec fn expired_at(&self, now: u64) -> bool {
        self.expire <= now
    }

    /// Whether the token has expired at instant `now`.
    pub fn is_expired_at(&self, now: u64) -> (expired: bool)
        ensures
            expired == self.expired_at(now),
    {
        self.expire <= now
    }

    /// Whether the token has expired by a clock reading (seconds since the
    /// epoch, or `None` for a clock before the epoch, at which every token
    /// counts as expired).
    pub open spec fn expired_by(&self, reading: Option<u64>) -> bool {
        match reading {
            Some(now) => self.expired_at(now),
            None => true,
        }
    }

    /// Whether the token has expired by the clock reading `reading`.
    pub fn is_expired_by(&self, reading: Option<u64>) -> (expired: bool)
        ensures
            expired == self.expired_by(reading),
    {
        match reading {
            Some(now) => self.is_expired_at(now),
            None => true,
        }
    }

    /// Whether the token has expired, by the system clock (a clock before
    /// the epoch makes every token expired).
    pub fn is_expired(&self) -> (expired: bool)
        ensures
            exists|reading: Option<u64>| expired == self.expired_by(reading),
    {
        self.is_expired_by(unix_seconds())
    }
}

/// The answer to a token request.
#[derive(Debug, Clone)]
pub struct TokenResponse {
    pub code: u32,
    pub msg: String,
    pub tenant_access_token: Option<String>,
    /// Seconds until the token expires.
    pub expire: Option<u64>,
}

/// The body of a token request.
#[derive(Debug, Clone)]
pub struct TokenRequestBody {
    pub app_id: String,
    pub app_secret: String,
}

/// Why no token could be obtained.
#[derive(Debug, Clone)]
pub enum OAuthError {
    /// The API answered with a non-zero code.
    Api { code: u32, msg: String },
    /// The answer held no token.
    MissingToken,
}

impl OAuthError {
    pub open spec fn text(&self) -> Seq<char> {
        match *self {
            OAuthError::Api { code, msg } => "Failed to get token: "@ + decimal(code as nat) + " - "@ + msg@,
            OAuthError::MissingToken => "Missing tenant_access_token in response"@,
        }
    }

    /// The error's message.
    pub fn to_string(&self) -> (s: String)
        ensures
            s@ == self.text(),
    {
        match self {
            OAuthError::Api { code, msg } => {
                let mut s = "Failed to get token: ".to_owned();
                push_decimal(&mut s, *code as u64);
                s.append(" - ");
                s.append(msg.as_str());
                s
            },
            OAuthError::MissingToken => "Missing tenant_access_token in response".to_owned(),
        }
    }
}

/// The lifetime assumed for a token whose answer does not give one.
pub open spec fn default_lifetime() -> u64 {
    7200
}

/// The lifetime, in seconds, that a token answer grants.
pub open spec fn granted_lifetime(resp: TokenResponse) -> u64 {
    match resp.expire {
        Some(e) => e,
        None => default_lifetime(),
    }
}

/// The lifetime, in seconds, that a token answer grants.
pub fn granted_lifetime_of(resp: &TokenResponse) -> (lifetime: u64)
    ensures
        lifetime == granted_lifetime(*resp),
{
    match resp.expire {
        Some(e) => e,
        None => 7200,
    }
}

/// The token that the cache serves at `now`: the current one, unless it has
/// expired.
pub open spec fn served(current: Option<TenantAccessToken>, now: u64) -> Option<TenantAccessToken> {
    match current {
        Some(t) => if t.expired_at(now) {
            None
        } else {
            Some(t)
        },
        None => None,
    }
}

/// The first step of obtaining a token.
#[derive(Debug, Clone)]
pub enum TokenAction {
    /// Use this cached, still valid token.
    UseCached(TenantAccessToken),
    /// Request a new token.
    Fetch,
}

/// The token that the cache serves at a clock reading: as `served` at a
/// reading after the epoch, and none for a clock before the epoch.
pub open spec fn served_by(current: Option<TenantAccessToken>, reading: Option<u64>) -> Option<TenantAccessToken> {
    match reading {
        Some(now) => served(current, now),
        None => None,
    }
}

/// Manages the application's token: its credentials, where to ask for a
/// token, and the token last obtained.
#[derive(Debug)]
pub struct OAuthManager {
    app_id: String,
    app_secret: String,
    api_base: String,
    current_token: Option<TenantAccessToken>,
}

impl OAuthManager {
    pub closed spec fn app(&self) -> Seq<char> {
        self.app_id@
    }

    pub closed spec fn secret(&self) -> Seq<char> {
        self.app_secret@
    }

    pub closed spec fn base(&self) -> Seq<char> {
        self.api_base@
    }

    /// The token last obtained or set, if any.
    pub closed spec fn current(&self) -> Option<TenantAccessToken> {
        self.current_token
    }

    /// A manager for the given application, with no token yet.
    pub fn new(app_id: String, app_secret: String, api_base: String) -> (m: OAuthManager)
        ensures
            m.app() == app_id@,
            m.secret() == app_secret@,
            m.base() == api_base@,
            m.current() is None,
    {
        OAuthManager { app_id, app_secret, api_base, current_token: None }
    }

    /// A copy of the manager that shares its credentials but not its token.
    pub fn fresh_copy(&self) -> (copy: OAuthManager)
        ensures
            copy.app() == self.app(),
            copy.secret() == self.secret(),
            copy.base() == self.base(),
            copy.current() is None,
    {
        OAuthManager {
            app_id: self.app_id.clone(),
            app_secret: self.app_secret.clone(),
            api_base: self.api_base.clone(),
            current_token: None,
        }
    }

    /// Where a token is requested.
    pub fn token_url(&self) -> (url: String)
        ensures
            url@ == self.base() + "/auth/v3/tenant_access_token/internal"@,
    {
        self.api_base.clone().concat("/auth/v3/tenant_access_token/internal")
    }

    /// The body of a token request: the application's id and secret.
    pub fn token_request_body(&self) -> (body: TokenRequestBody)
        ensures
            body.app_id@ == self.app(),
            body.app_secret@ == self.secret(),
    {
        TokenRequestBody { app_id: self.app_id.clone(), app_secret: self.app_secret.clone() }
    }

    /// The token granted by an answer received at instant `now`: refused
    /// when the code is not 0 or no token came; otherwise expiring `now`
    /// plus the granted lifetime (7200 seconds when none is given).
    pub fn token_from_response(resp: TokenResponse, now: u64) -> (result: Result<TenantAccessToken, OAuthError>)
        requires
            resp.code == 0 && resp.tenant_access_token is Some ==> now + granted_lifetime(resp) <= u64::MAX,
        ensures
            resp.code != 0 ==> (result matches Err(OAuthError::Api { code, msg }) && code == resp.code && msg@
                == resp.msg@),
            resp.code == 0 && resp.tenant_access_token is None ==> (result matches Err(e) && e is MissingToken),
            resp.code == 0 && resp.tenant_access_token is Some ==> (result matches Ok(t) && t.token@
                == resp.tenant_access_token->0@ && t.expire == now + granted_lifetime(resp)),
    {
        if resp.code != 0 {
            return Err(OAuthError::Api { code: resp.code, msg: resp.msg });
        }
        let token = match resp.tenant_access_token {
            Some(t) => t,
            None => return Err(OAuthError::MissingToken),
        };
        let expire_seconds: u64 = match resp.expire {
            Some(e) => e,
            None => 7200,
        };
        Ok(TenantAccessToken { token, expire: now + expire_seconds })
    }

    /// The cached token, if it is still valid at instant `now`.
    pub fn cached_token_at(&self, now: u64) -> (token: Option<TenantAccessToken>)
        ensures
            token == served(self.current(), now),
    {
        match &self.current_token {
            Some(t) => {
                if !t.is_expired_at(now) {
                    Some(TenantAccessToken { token: t.token.clone(), expire: t.expire })
                } else {
                    None
                }
            },
            None => None,
        }
    }

    /// The cached token, if it is still valid by the clock reading
    /// `reading` (none when the clock reads before the epoch).
    pub fn cached_token_by(&self, reading: Option<u64>) -> (token: Option<TenantAccessToken>)
        ensures
            token == served_by(self.current(), reading),
    {
        match reading {
            Some(now) => self.cached_token_at(now),
            None => None,
        }
    }

    /// The cached token, if it is still valid by the system clock (none
    /// when the clock reads before the epoch).
    pub fn cached_token(&self) -> (token: Option<TenantAccessToken>)
        ensures
            exists|reading: Option<u64>| token == served_by(self.current(), reading),
    {
        self.cached_token_by(unix_seconds())
    }

    /// What obtaining a token starts with, at the clock reading `reading`:
    /// the cached token when it is still valid, else a request for a new one
    /// (whose answer `token_from_response` reads, and `set_token` then
    /// caches).
    pub fn refresh_step(&self, reading: Option<u64>) -> (action: TokenAction)
        ensures
            served_by(self.current(), reading) matches Some(t) ==> action == TokenAction::UseCached(t),
            served_by(self.current(), reading) is None ==> action is Fetch,
    {
        match self.cached_token_by(reading) {
            Some(t) => TokenAction::UseCached(t),
            None => TokenAction::Fetch,
        }
    }

    /// Makes `token` the current token.
    pub fn set_token(&mut self, token: TenantAccessToken)
        ensures
            final(self).current() == Some(token),
            final(self).app() == old(self).app(),
            final(self).secret() == old(self).secret(),
            final(self).base() == old(self).base(),
    {
        self.current_token = Some(token);
    }
}

/// The cache never serves a token that has expired: whatever it serves at
/// `now` is its current token, expiring after `now`.
pub proof fn lemma_served_token_is_live(current: Option<TenantAccessToken>, now: u64)
    ensures
        served(current, now) matches Some(t) ==> (current == Some(t) && now < t.expire),
        current matches Some(t) && now < t.expire ==> served(current, now) == current,
{
}

/// By a clock reading, the cache serves a token only when the clock reads an
/// instant after the epoch and before the token expires; a clock before the
/// epoch gets no token.
pub proof fn lemma_served_by_reading_is_live(current: Option<TenantAccessToken>, reading: Option<u64>)
    ensures
        served_by(current, reading) matches Some(t) ==> (reading matches Some(n) && n < t.expire
            && current == Some(t)),
        reading is None ==> served_by(current, reading) is None,
        forall|t: TenantAccessToken| t.expired_by(reading) ==> served_by(Some(t), reading) is None,
{
}

/// A token that was set is what the cache serves, for as long as it has
/// not expired, and nothing after.
pub proof fn lemma_set_token_is_served(token: TenantAccessToken, now: u64)
    ensures
        served(Some(token), now) == (if now < token.expire { Some(token) } else { None::<TenantAccessToken> }),
{
}

/// A token obtained at instant `fetched_at` is served from the cache at any
/// later instant before `fetched_at` plus the granted lifetime, and no longer.
pub proof fn lemma_fetched_token_lifetime(resp: TokenResponse, fetched_at: u64, token: TenantAccessToken, now: u64)
    requires
        token.expire == fetched_at + granted_lifetime(resp),
    ensures
        served(Some(token), now) is Some <==> now < fetched_at + granted_lifetime(resp),
{
}

} // verus!
