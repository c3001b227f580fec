//! The client state: environment selection, OAuth2 credentials and the cached
//! access token with its expiry bookkeeping.

use vstd::prelude::*;

verus! {

use vstd::string::StringExecFns;
use crate::{LIVE_ENDPOINT, SANDBOX_ENDPOINT};
use crate::errors::{PaypalError, ResponseError};
use crate::json::{FromJson, Json};
use crate::request::spec_status_success;
use crate::request::status_is_success;

/// Represents the access token returned by the OAuth2 authentication.
#[derive(Debug, Clone, PartialEq, Eq)]
pub struct AccessToken {
    /// The OAuth2 scopes.
    pub scope: String,
    /// The access token.
    pub access_token: String,
    /// The token type.
    pub token_type: String,
    /// The app id.
    pub app_id: String,
    /// Seconds until it expires.
    pub expires_in: u64,
    /// The nonce.
    pub nonce: String,
}

impl FromJson for AccessToken {
    /// A token response: string `scope`, `access_token`, `token_type`,
    /// `app_id` and `nonce` fields, and a non-negative whole `expires_in`.
    open spec fn spec_decodable(j: Json) -> bool {
        &&& j.spec_field_string("scope"@) is Some
        &&& j.spec_field_string("access_token"@) is Some
        &&& j.spec_field_string("token_type"@) is Some
        &&& j.spec_field_string("app_id"@) is Some
        &&& match j.spec_field_int("expires_in"@) {
            Some(e) => e >= 0,
            None => false,
        }
        &&& j.spec_field_string("nonce"@) is Some
    }

    open spec fn spec_matches(self, j: Json) -> bool {
        &&& Some(self.scope) == j.spec_field_string("scope"@)
        &&& Some(self.access_token) == j.spec_field_string("access_token"@)
        &&& Some(self.token_type) == j.spec_field_string("token_type"@)
        &&& Some(self.app_id) == j.spec_field_string("app_id"@)
        &&& match j.spec_field_int("expires_in"@) {
            Some(e) => e >= 0 && self.expires_in == e as u64,
            None => false,
        }
        &&& Some(self.nonce) == j.spec_field_string("nonce"@)
    }

    fn from_json(j: &Json) -> (r: Option<AccessToken>)
        ensures
            match r {
                Some(v) => Self::spec_decodable(*j) && v.spec_matches(*j),
                None => !Self::spec_decodable(*j),
            },
    {
        let scope = match j.get_str("scope") {
            Some(s) => s,
            None => {
                return None;
            },
        };
        let access_token = match j.get_str("access_token") {
            Some(s) => s,
            None => {
                return None;
            },
        };
        let token_type = match j.get_str("token_type") {
            Some(s) => s,
            None => {
                return None;
            },
        };
        let app_id = match j.get_str("app_id") {
            Some(s) => s,
            None => {
                return None;
            },
        };
        let e = match j.get_i64("expires_in") {
            Some(n) => n,
            None => {
                return None;
            },
        };
        if e < 0 {
            return None;
        }
        let nonce = match j.get_str("nonce") {
            Some(s) => s,
            None => {
                return None;
            },
        };
        Some(
            AccessToken {
                scope,
                access_token,
                token_type,
                app_id,
                expires_in: e as u64,
                nonce,
            },
        )
    }
}

/// Stores OAuth2 information.
#[derive(Debug, Clone)]
pub struct Auth {
    /// Your client id.
    pub client_id: String,
    /// The secret.
    pub secret: String,
    /// The access token returned by OAuth2 authentication.
    pub access_token: Option<AccessToken>,
    /// Used to check when the token expires: the instant (in seconds on the
    /// caller's monotonic clock) at which the token was acquired, and its
    /// validity duration in seconds.
    pub expires: Option<(u64, u64)>,
}

/// The PayPal API environment.
#[derive(Debug, Clone, PartialEq, Eq)]
pub enum PaypalEnv {
    /// The live environment.
    Live,
    /// The sandbox environment.
    Sandbox,
    /// For mocking.
    Mock(String),
}

impl PaypalEnv {
    /// The base URL of this environment, as a character sequence.
    pub open spec fn spec_endpoint(&self) -> Seq<char> {
        match self {
            PaypalEnv::Live => LIVE_ENDPOINT@,
            PaypalEnv::Sandbox => SANDBOX_ENDPOINT@,
            PaypalEnv::Mock(endpoint) => endpoint@,
        }
    }

    /// Returns the endpoint of this environment.
    pub fn endpoint<'a>(&'a self) -> (r: &'a str)
        ensures
            r@ == self.spec_endpoint(),
    {
        match self {
            PaypalEnv::Live => LIVE_ENDPOINT,
            PaypalEnv::Sandbox => SANDBOX_ENDPOINT,
            PaypalEnv::Mock(endpoint) => endpoint.as_str(),
        }
    }

    /// Constructs a URL from the target: the environment base followed by the
    /// relative path. The target must start with `/`.
    pub fn make_url(&self, target: &str) -> (r: String)
        requires
            target@.len() > 0,
            target@[0] == '/',
        ensures
            r@ == self.spec_endpoint() + target@,
    {
        let base = self.endpoint();
        String::from_str(base).concat(target)
    }
}

/// Represents a client used to interact with the PayPal API.
#[derive(Debug, Clone)]
pub struct Client {
    /// Whether you are or are not in a sandbox environment.
    pub env: PaypalEnv,
    /// API auth information.
    pub auth: Auth,
}

impl Client {
    /// Returns a new client. You must acquire an access token afterwards to
    /// interact with the API.
    pub fn new(client_id: String, secret: String, env: PaypalEnv) -> (r: Client)
        ensures
            r.env == env,
            r.auth.client_id == client_id,
            r.auth.secret == secret,
            r.auth.access_token is None,
            r.auth.expires is None,
            r.spec_wf(),
    {
        Client {
            env,
            auth: Auth { client_id, secret, access_token: None, expires: None },
        }
    }

    /// Well-formedness of the token state: a token is cached exactly when an
    /// acquisition instant is recorded. Constructors establish it and the
    /// token operations preserve it.
    pub open spec fn spec_wf(&self) -> bool {
        (self.auth.access_token is Some) == (self.auth.expires is Some)
    }

    /// True when no token has ever been acquired, or when at instant `now`
    /// (seconds) the validity duration of the last acquisition has elapsed.
    pub open spec fn spec_expired_at(&self, now: u64) -> bool {
        match self.auth.expires {
            None => true,
            Some((at, dur)) => now as int - at as int >= dur as int,
        }
    }

    /// Checks if the access token expired at instant `now` (seconds on the
    /// caller's monotonic clock).
    pub fn access_token_expired(&self, now: u64) -> (r: bool)
        ensures
            r == self.spec_expired_at(now),
    {
        match &self.auth.expires {
            Some(expires) => now >= expires.0 && now - expires.0 >= expires.1,
            None => true,
        }
    }

    /// What the token-endpoint request of this client must hold: a POST to
    /// the token path under the environment base, HTTP Basic authentication
    /// with the client credentials, and the fixed client-credentials grant
    /// body.
    pub open spec fn spec_token_request(self, r: TokenRequest) -> bool {
        &&& r.url@ == self.env.spec_endpoint() + "/v1/oauth2/token"@
        &&& r.basic_auth_user@ == self.auth.client_id@
        &&& r.basic_auth_pass@ == self.auth.secret@
        &&& r.content_type@ == "application/x-www-form-urlencoded"@
        &&& r.accept@ == "application/json"@
        &&& r.body@ == "grant_type=client_credentials"@
    }

    /// Builds the request that acquires a token for this client.
    pub fn token_request(&self) -> (r: TokenRequest)
        ensures
            self.spec_token_request(r),
    {
        proof {
            reveal_strlit("/v1/oauth2/token");
        }
        TokenRequest {
            url: self.env.make_url("/v1/oauth2/token"),
            basic_auth_user: self.auth.client_id.clone(),
            basic_auth_pass: self.auth.secret.clone(),
            content_type: String::from_str("application/x-www-form-urlencoded"),
            accept: String::from_str("application/json"),
            body: String::from_str("grant_type=client_credentials"),
        }
    }

    /// Decides the acquisition step at instant `now`: `None` when the cached
    /// token is still valid — the caching contract, no network call is to be
    /// made — or the single request to perform when it is missing or expired.
    pub fn acquire_plan(&self, now: u64) -> (r: Option<TokenRequest>)
        ensures
            (r is None) == !self.spec_expired_at(now),
            match r {
                Some(req) => self.spec_token_request(req),
                None => true,
            },
    {
        if !self.access_token_expired(now) {
            None
        } else {
            Some(self.token_request())
        }
    }

    /// The client state after `token` is stored at instant `now`: the token
    /// is cached, the acquisition instant is `now` and the validity duration
    /// is the token's `expires_in`; everything else is unchanged.
    pub open spec fn spec_with_token(self, token: AccessToken, now: u64) -> Client {
        Client {
            env: self.env,
            auth: Auth {
                client_id: self.auth.client_id,
                secret: self.auth.secret,
                access_token: Some(token),
                expires: Some((now, token.expires_in)),
            },
        }
    }

    /// Stores a freshly acquired token: the single writer of the token state.
    pub fn store_token(&mut self, token: AccessToken, now: u64)
        ensures
            *final(self) == old(self).spec_with_token(token, now),
    {
        self.auth.expires = Some((now, token.expires_in));
        self.auth.access_token = Some(token);
    }

    /// Applies the outcome of the token-endpoint call made at instant `now`.
    /// On a success status with a well-formed token body the token is stored;
    /// on a success status with any other body the state is unchanged and a
    /// decode error is returned; on a failure status the state is unchanged
    /// and the provider error payload is returned, or a decode error when the
    /// body does not even hold one.
    pub fn apply_token_response(&mut self, now: u64, status: u16, body: &Json) -> (r: Result<
        (),
        ResponseError,
    >)
        ensures
            spec_status_success(status) ==> (
            if AccessToken::spec_decodable(*body) {
                r is Ok && (final(self).auth.access_token matches Some(t) && t.spec_matches(*body)
                    && *final(self) == old(self).spec_with_token(t, now))
            } else {
                (r matches Err(ResponseError::DecodeError(_))) && *final(self) == *old(self)
            }),
            old(self).spec_wf() ==> final(self).spec_wf(),
            !spec_status_success(status) ==> *final(self) == *old(self) && (
            if PaypalError::spec_decodable(*body) {
                r matches Err(ResponseError::ApiError(e)) && e.spec_matches(*body)
            } else {
                r matches Err(ResponseError::DecodeError(_))
            }),
    {
        if status_is_success(status) {
            match AccessToken::from_json(body) {
                Some(token) => {
                    self.store_token(token, now);
                    Ok(())
                },
                None => Err(
                    ResponseError::DecodeError(
                        String::from_str("token endpoint body is not an access token"),
                    ),
                ),
            }
        } else {
            match PaypalError::from_json(body) {
                Some(e) => Err(ResponseError::ApiError(e)),
                None => Err(
                    ResponseError::DecodeError(
                        String::from_str("token endpoint body is not a provider error"),
                    ),
                ),
            }
        }
    }
}

/// The HTTP request that acquires a token: a POST to the token endpoint with
/// HTTP Basic authentication and a fixed form-encoded grant body.
#[derive(Debug, Clone)]
pub struct TokenRequest {
    /// The absolute URL of the token endpoint.
    pub url: String,
    /// The HTTP Basic authentication user: the client id.
    pub basic_auth_user: String,
    /// The HTTP Basic authentication password: the secret.
    pub basic_auth_pass: String,
    /// The content type of the request body.
    pub content_type: String,
    /// The accepted response content type.
    pub accept: String,
    /// The request body: the client-credentials grant.
    pub body: String,
}

/// Token caching: once a token is stored at instant `t0`, at every instant
/// before its validity duration has elapsed the client is not expired, so
/// `acquire_plan` decides `None` there: no network call is made and the
/// cached token is left unchanged.
pub proof fn lemma_token_cache_fresh(c: Client, t: AccessToken, t0: u64, now: u64)
    requires
        (now as int - t0 as int) < t.expires_in as int,
    ensures
        !c.spec_with_token(t, t0).spec_expired_at(now),
        c.spec_with_token(t, t0).auth.access_token == Some(t),
{
}

/// Token refresh: once the validity duration of the stored token has elapsed,
/// the client is expired again, so `acquire_plan` decides exactly one request,
/// and applying a successful response replaces the cached token.
pub proof fn lemma_token_cache_elapsed(c: Client, t: AccessToken, t0: u64, now: u64)
    requires
        (now as int - t0 as int) >= t.expires_in as int,
    ensures
        c.spec_with_token(t, t0).spec_expired_at(now),
{
}

} // verus!
