//! Authentication: credentials, the tokens made from them, and the check of
//! an `Authorization` header against the tokens handed out.

use vstd::prelude::*;
use crate::clock::now_secs;
use crate::keyed::{has_name, lemma_lookup_at, lookup, unique_names, KeyedList};
use crate::mcp::types::{is_uuid_text, new_uuid_string};
use crate::text::{chars_of, concat2, concat3, owned, str_eq, string_of};
use crate::utils::error::{McpError, McpResult};

verus! {

/// The ways a client can authenticate.
#[derive(Debug, PartialEq, Eq)]
pub enum AuthMethod {
    /// A bearer token.
    Bearer,
    /// An API key.
    ApiKey,
    /// OAuth 2.0.
    OAuth2,
    /// A method of the given name.
    Custom(String),
}

impl Clone for AuthMethod {
    fn clone(&self) -> (r: Self)
        ensures
            r == *self,
    {
        match self {
            AuthMethod::Bearer => AuthMethod::Bearer,
            AuthMethod::ApiKey => AuthMethod::ApiKey,
            AuthMethod::OAuth2 => AuthMethod::OAuth2,
            AuthMethod::Custom(n) => AuthMethod::Custom(n.clone()),
        }
    }
}

/// The name of a method as it appears in an `Authorization` header.
pub open spec fn method_name(m: AuthMethod) -> Seq<char> {
    match m {
        AuthMethod::Bearer => "Bearer"@,
        AuthMethod::ApiKey => "ApiKey"@,
        AuthMethod::OAuth2 => "OAuth2"@,
        AuthMethod::Custom(n) => n@,
    }
}

impl AuthMethod {
    /// The method's name.
    pub fn to_string(&self) -> (r: String)
        ensures
            r@ == method_name(*self),
    {
        match self {
            AuthMethod::Bearer => owned("Bearer"),
            AuthMethod::ApiKey => owned("ApiKey"),
            AuthMethod::OAuth2 => owned("OAuth2"),
            AuthMethod::Custom(n) => n.clone(),
        }
    }
}

/// A token that authenticates requests.
#[derive(Debug, PartialEq, Eq)]
pub struct AuthToken {
    /// The token's text.
    pub token: String,
    /// How the token is presented.
    pub token_type: AuthMethod,
    /// When the token expires, in seconds since the Unix epoch; never when `None`.
    pub expires_at: Option<u64>,
}

impl Clone for AuthToken {
    fn clone(&self) -> (r: Self)
        ensures
            r == *self,
    {
        AuthToken { token: self.token.clone(), token_type: self.token_type.clone(), expires_at: self.expires_at }
    }
}

/// A token has expired at time `now` (seconds since the Unix epoch).
pub open spec fn expired_at(t: AuthToken, now: u64) -> bool {
    match t.expires_at {
        Some(e) => now >= e,
        None => false,
    }
}

/// The expiry of a token made at `now` to last `expires_in` seconds; the sum
/// saturates at the largest time.
pub open spec fn expiry(now: u64, expires_in: Option<u64>) -> Option<u64> {
    match expires_in {
        Some(d) => Some(if now + d > u64::MAX { u64::MAX } else { (now + d) as u64 }),
        None => None,
    }
}

impl AuthToken {
    /// A token made at time `now` that lasts `expires_in` seconds, or forever.
    pub fn new_at(token: String, token_type: AuthMethod, expires_in: Option<u64>, now: u64) -> (r: AuthToken)
        ensures
            r.token == token,
            r.token_type == token_type,
            r.expires_at == expiry(now, expires_in),
    {
        let expires_at = match expires_in {
            Some(d) => Some(now.saturating_add(d)),
            None => None,
        };
        AuthToken { token, token_type, expires_at }
    }

    /// A token made now that lasts `expires_in` seconds, or forever.
    pub fn new(token: String, token_type: AuthMethod, expires_in: Option<u64>) -> (r: AuthToken)
        ensures
            r.token == token,
            r.token_type == token_type,
            exists|now: u64| r.expires_at == #[trigger] expiry(now, expires_in),
            expires_in is None <==> r.expires_at is None,
    {
        let now = now_secs();
        let r = Self::new_at(token, token_type, expires_in, now);
        assert(r.expires_at == expiry(now, expires_in));
        r
    }

    /// A bearer token made now.
    pub fn bearer(token: String, expires_in: Option<u64>) -> (r: AuthToken)
        ensures
            r.token == token,
            r.token_type == AuthMethod::Bearer,
            exists|now: u64| r.expires_at == #[trigger] expiry(now, expires_in),
            expires_in is None <==> r.expires_at is None,
    {
        Self::new(token, AuthMethod::Bearer, expires_in)
    }

    /// An API-key token, which never expires.
    pub fn api_key(key: String) -> (r: AuthToken)
        ensures
            r.token == key,
            r.token_type == AuthMethod::ApiKey,
            r.expires_at is None,
    {
        Self::new(key, AuthMethod::ApiKey, None)
    }

    /// Whether the token has expired at time `now`.
    pub fn is_expired_at(&self, now: u64) -> (r: bool)
        ensures
            r == expired_at(*self, now),
    {
        match self.expires_at {
            Some(e) => now >= e,
            None => false,
        }
    }

    /// Whether the token has expired by the clock: the verdict of
    /// `is_expired_at` at the time the clock reads. A token without expiry
    /// never has; one that expires at time 0 always has.
    pub fn is_expired(&self) -> (r: bool)
        ensures
            exists|now: u64| r == expired_at(*self, now),
            self.expires_at is None ==> !r,
    {
        let now = now_secs();
        let r = self.is_expired_at(now);
        assert(r == expired_at(*self, now));
        r
    }

    /// The value of an `Authorization` header carrying the token:
    /// the method's name, a space, and the token.
    pub fn header_value(&self) -> (r: String)
        ensures
            r@ == method_name(self.token_type) + " "@ + self.token@,
    {
        let name = self.token_type.to_string();
        concat3(name.as_str(), " ", self.token.as_str())
    }
}

/// What a client authenticates with.
#[derive(Debug)]
pub struct AuthCredentials {
    /// The credentials' identifier.
    pub id: String,
    /// The method they are for.
    pub method: AuthMethod,
    /// The API key.
    pub api_key: Option<String>,
    /// The user name.
    pub username: Option<String>,
    /// The password.
    pub password: Option<String>,
    /// The OAuth 2.0 client identifier.
    pub client_id: Option<String>,
    /// The OAuth 2.0 client secret.
    pub client_secret: Option<String>,
    /// The OAuth 2.0 scope.
    pub scope: Option<String>,
    /// The OAuth 2.0 token endpoint.
    pub token_endpoint: Option<String>,
}

impl Clone for AuthCredentials {
    fn clone(&self) -> (r: Self)
        ensures
            r == *self,
    {
        AuthCredentials {
            id: self.id.clone(),
            method: self.method.clone(),
            api_key: crate::mcp::prompts::types::clone_opt_string(&self.api_key),
            username: crate::mcp::prompts::types::clone_opt_string(&self.username),
            password: crate::mcp::prompts::types::clone_opt_string(&self.password),
            client_id: crate::mcp::prompts::types::clone_opt_string(&self.client_id),
            client_secret: crate::mcp::prompts::types::clone_opt_string(&self.client_secret),
            scope: crate::mcp::prompts::types::clone_opt_string(&self.scope),
            token_endpoint: crate::mcp::prompts::types::clone_opt_string(&self.token_endpoint),
        }
    }
}

impl AuthCredentials {
    /// API-key credentials under a fresh identifier.
    pub fn api_key(api_key: String) -> (r: AuthCredentials)
        ensures
            is_uuid_text(r.id@),
            r.method == AuthMethod::ApiKey,
            r.api_key == Some(api_key),
            r.username is None && r.password is None && r.client_id is None,
            r.client_secret is None && r.scope is None && r.token_endpoint is None,
    {
        AuthCredentials {
            id: new_uuid_string(),
            method: AuthMethod::ApiKey,
            api_key: Some(api_key),
            username: None,
            password: None,
            client_id: None,
            client_secret: None,
            scope: None,
            token_endpoint: None,
        }
    }

    /// OAuth 2.0 credentials under a fresh identifier.
    pub fn oauth2(client_id: String, client_secret: String, token_endpoint: String, scope: Option<String>) -> (r: AuthCredentials)
        ensures
            is_uuid_text(r.id@),
            r.method == AuthMethod::OAuth2,
            r.api_key is None && r.username is None && r.password is None,
            r.client_id == Some(client_id),
            r.client_secret == Some(client_secret),
            r.scope == scope,
            r.token_endpoint == Some(token_endpoint),
    {
        AuthCredentials {
            id: new_uuid_string(),
            method: AuthMethod::OAuth2,
            api_key: None,
            username: None,
            password: None,
            client_id: Some(client_id),
            client_secret: Some(client_secret),
            scope,
            token_endpoint: Some(token_endpoint),
        }
    }
}

/// The lifetime of the tokens made for OAuth 2.0 and bearer credentials: an hour.
pub const TOKEN_LIFETIME_SECS: u64 = 3600;

/// The token made from credentials, at time `now`, with `fresh` as the text of
/// a token that has none of its own; or the error that stops it.
pub open spec fn token_from(c: AuthCredentials, now: u64, fresh: String) -> Result<AuthToken, Seq<char>> {
    match c.method {
        AuthMethod::ApiKey => match c.api_key {
            Some(k) => Ok(AuthToken { token: k, token_type: AuthMethod::ApiKey, expires_at: None }),
            None => Err("API key not provided"@),
        },
        AuthMethod::OAuth2 => Ok(AuthToken { token: fresh, token_type: AuthMethod::OAuth2, expires_at: expiry(now, Some(TOKEN_LIFETIME_SECS)) }),
        AuthMethod::Bearer => Ok(AuthToken { token: fresh, token_type: AuthMethod::Bearer, expires_at: expiry(now, Some(TOKEN_LIFETIME_SECS)) }),
        AuthMethod::Custom(n) => Err("Custom auth method not implemented: "@ + n@),
    }
}

/// Splits an `Authorization` header at its first space.
pub open spec fn header_parts(h: Seq<char>) -> Option<(Seq<char>, Seq<char>)> {
    if h.contains(' ') {
        let i = choose|i: int| 0 <= i < h.len() && h[i] == ' ' && forall|j: int| 0 <= j < i ==> h[j] != ' ';
        Some((h.subrange(0, i), h.subrange(i + 1, h.len() as int)))
    } else {
        None
    }
}

/// A token is presented by the header parts `(kind, value)`.
pub open spec fn presents(t: AuthToken, kind: Seq<char>, value: Seq<char>) -> bool {
    method_name(t.token_type) == kind && t.token@ == value
}

/// The verdict on an `Authorization` header at time `now`, against the
/// tokens handed out, in order: the first token the header presents decides.
pub open spec fn header_verdict(tokens: Seq<(String, AuthToken)>, h: Seq<char>, now: u64) -> Result<(), Seq<char>> {
    match header_parts(h) {
        None => Err("Invalid Authorization header format"@),
        Some((kind, value)) => {
            if exists|i: int| 0 <= i < tokens.len() && presents(#[trigger] tokens[i].1, kind, value) {
                let i = choose|i: int| 0 <= i < tokens.len() && presents(#[trigger] tokens[i].1, kind, value)
                    && forall|j: int| 0 <= j < i ==> !presents(#[trigger] tokens[j].1, kind, value);
                if expired_at(tokens[i].1, now) { Err("Token expired"@) } else { Ok(()) }
            } else {
                Err("Invalid token"@)
            }
        },
    }
}

/// A token made from credentials: an API key's never expires, and no token
/// is of a custom method.
pub open spec fn issued(t: AuthToken) -> bool {
    match t.token_type {
        AuthMethod::ApiKey => t.expires_at is None,
        AuthMethod::Custom(_) => false,
        _ => true,
    }
}

/// Every token of a list was made from credentials.
pub open spec fn all_issued(tokens: Seq<(String, AuthToken)>) -> bool {
    forall|i: int| 0 <= i < tokens.len() ==> issued(#[trigger] tokens[i].1)
}

/// Where some token is presented by `(kind, value)`, a first one is.
proof fn lemma_first_presenting(tokens: Seq<(String, AuthToken)>, kind: Seq<char>, value: Seq<char>, k: int)
    requires
        0 <= k < tokens.len(),
        presents(tokens[k].1, kind, value),
    ensures
        exists|c: int| 0 <= c < tokens.len() && presents(#[trigger] tokens[c].1, kind, value)
            && forall|j: int| 0 <= j < c ==> !presents(#[trigger] tokens[j].1, kind, value),
    decreases k,
{
    if exists|j: int| 0 <= j < k && presents(#[trigger] tokens[j].1, kind, value) {
        let j = choose|j: int| 0 <= j < k && presents(#[trigger] tokens[j].1, kind, value);
        lemma_first_presenting(tokens, kind, value, j);
    } else {
        assert(forall|j: int| 0 <= j < k ==> !presents(#[trigger] tokens[j].1, kind, value));
    }
}

/// The header `ApiKey <key>` splits into the method's name and the key.
proof fn lemma_api_key_parts(key: Seq<char>)
    ensures
        header_parts("ApiKey"@ + " "@ + key) == Some(("ApiKey"@, key)),
{
    reveal_strlit("ApiKey");
    reveal_strlit(" ");
    let h = "ApiKey"@ + " "@ + key;
    assert(h[6] == ' ');
    assert(h.contains(' '));
    let i = choose|i: int| 0 <= i < h.len() && h[i] == ' ' && forall|j: int| 0 <= j < i ==> h[j] != ' ';
    if i < 6 {
        assert(h[i] != ' ');
    }
    if i > 6 {
        assert(h[6] != ' ');
    }
    assert(i == 6);
    assert(h.subrange(0, 6) =~= "ApiKey"@);
    assert(h.subrange(7, h.len() as int) =~= key);
}

/// Among tokens made from credentials, a token presented as an API key is
/// one that never expires.
proof fn lemma_presented_api_key(t: AuthToken, key: Seq<char>)
    requires
        issued(t),
        presents(t, "ApiKey"@, key),
    ensures
        t.expires_at is None,
{
    reveal_strlit("ApiKey");
    reveal_strlit("OAuth2");
    reveal_strlit("Bearer");
    assert("OAuth2"@[0] != "ApiKey"@[0]);
    assert("Bearer"@[0] != "ApiKey"@[0]);
}

/// Among tokens made from credentials, the header that presents an API key
/// held by one of them is valid at every time.
proof fn lemma_api_key_header(tokens: Seq<(String, AuthToken)>, key: Seq<char>, k: int, now: u64)
    requires
        all_issued(tokens),
        0 <= k < tokens.len(),
        tokens[k].1.token_type == AuthMethod::ApiKey,
        tokens[k].1.token@ == key,
    ensures
        header_verdict(tokens, "ApiKey"@ + " "@ + key, now) is Ok,
{
    lemma_api_key_parts(key);
    let kind = "ApiKey"@;
    assert(method_name(tokens[k].1.token_type) == kind);
    assert(presents(tokens[k].1, kind, key));
    lemma_first_presenting(tokens, kind, key, k);
    let c = choose|c: int| 0 <= c < tokens.len() && presents(#[trigger] tokens[c].1, kind, key)
        && forall|j: int| 0 <= j < c ==> !presents(#[trigger] tokens[j].1, kind, key);
    assert(issued(tokens[c].1));
    lemma_presented_api_key(tokens[c].1, key);
}

/// The API-key token stored under `id` among tokens made from credentials
/// is valid whenever it is presented.
proof fn api_key_law(tokens: Seq<(String, AuthToken)>, id: Seq<char>, t: AuthToken)
    requires
        all_issued(tokens),
        unique_names(tokens),
        lookup(tokens, id) == Some(t),
    ensures
        t.token_type == AuthMethod::ApiKey ==> forall|now: u64|
            #[trigger] header_verdict(tokens, method_name(t.token_type) + " "@ + t.token@, now) is Ok,
{
    if t.token_type == AuthMethod::ApiKey {
        assert(has_name(tokens, id));
        let k = choose|i: int| 0 <= i < tokens.len() && tokens[i].0@ == id;
        lemma_lookup_at(tokens, k);
        assert(tokens[k].1 == t);
        reveal_strlit("ApiKey");
        assert(method_name(t.token_type) == "ApiKey"@);
        assert forall|now: u64| #[trigger] header_verdict(tokens, method_name(t.token_type) + " "@ + t.token@, now) is Ok by {
            lemma_api_key_header(tokens, t.token@, k, now);
        }
    }
}

/// What asking `before` for a token for the credentials `id` at time `now`
/// answers, with `fresh` as the text of a new token that needs one: the token
/// handed out before while it has not expired; otherwise a new one made from
/// the credentials, kept in `after`; or the error that stops it.
pub open spec fn token_handed(
    before: AuthService,
    after: AuthService,
    id: Seq<char>,
    now: u64,
    fresh: String,
    r: McpResult<AuthToken>,
) -> bool {
    match before.token_of(id) {
        Some(t) if !expired_at(t, now) => r == Ok::<AuthToken, McpError>(t) && after.token_of(id) == before.token_of(id),
        _ => match before.credentials_of(id) {
            None => r matches Err(McpError::AuthenticationError(m)) && m@ == "Credentials not found: "@ + id,
            Some(c) => match token_from(c, now, fresh) {
                Ok(t) => r == Ok::<AuthToken, McpError>(t) && after.token_of(id) == Some(t),
                Err(m) => r matches Err(McpError::AuthenticationError(e)) && e@ == m,
            },
        },
    }
}

/// Hands out tokens for registered credentials and checks them.
#[derive(Debug)]
pub struct AuthService {
    tokens: KeyedList<AuthToken>,
    credentials: KeyedList<AuthCredentials>,
}

impl AuthService {
    /// Every token handed out was made from credentials.
    #[verifier::type_invariant]
    closed spec fn tokens_issued(&self) -> bool {
        all_issued(self.tokens.entries())
    }

    /// The token handed out for the credentials `id`.
    pub closed spec fn token_of(&self, id: Seq<char>) -> Option<AuthToken> {
        self.tokens.spec_get(id)
    }

    /// The tokens handed out, by credentials, in order.
    pub closed spec fn token_entries(&self) -> Seq<(String, AuthToken)> {
        self.tokens.entries()
    }

    /// The credentials registered under `id`.
    pub closed spec fn credentials_of(&self, id: Seq<char>) -> Option<AuthCredentials> {
        self.credentials.spec_get(id)
    }

    /// A service without credentials or tokens.
    pub fn new() -> (r: AuthService)
        ensures
            forall|id: Seq<char>| r.token_of(id) is None && r.credentials_of(id) is None,
            r.token_entries().len() == 0,
    {
        AuthService { tokens: KeyedList::new(), credentials: KeyedList::new() }
    }

    /// Registers credentials under their identifier.
    pub fn add_credentials(&mut self, credentials: AuthCredentials) -> (r: McpResult<()>)
        ensures
            r is Ok,
            final(self).credentials_of(credentials.id@) == Some(credentials),
            forall|id: Seq<char>| id != credentials.id@ ==> final(self).credentials_of(id) == old(self).credentials_of(id),
            forall|id: Seq<char>| final(self).token_of(id) == old(self).token_of(id),
            final(self).token_entries() == old(self).token_entries(),
    {
        proof { use_type_invariant(&*self); }
        let id = credentials.id.clone();
        let mut all = KeyedList::new();
        std::mem::swap(&mut all, &mut self.credentials);
        all.insert(id, credentials);
        self.credentials = all;
        Ok(())
    }

    /// A copy of the credentials registered under `id`.
    pub fn get_credentials(&self, id: &str) -> (r: McpResult<AuthCredentials>)
        ensures
            match self.credentials_of(id@) {
                Some(c) => r == Ok::<AuthCredentials, McpError>(c),
                None => r matches Err(McpError::AuthenticationError(m)) && m@ == "Credentials not found: "@ + id@,
            },
    {
        match self.credentials.get(id) {
            Some(c) => Ok(c.clone()),
            None => Err(McpError::AuthenticationError(concat2("Credentials not found: ", id))),
        }
    }

    /// A token for the credentials `credential_id` at time `now`: the one
    /// handed out before while it has not expired, otherwise a new one made
    /// from the credentials (with `fresh` as its text where it needs one) and
    /// kept for next time.
    pub fn get_token_at(&mut self, credential_id: &str, now: u64, fresh: String) -> (r: McpResult<AuthToken>)
        ensures
            token_handed(*old(self), *final(self), credential_id@, now, fresh, r),
            now < u64::MAX ==> (r matches Ok(t) ==> !expired_at(t, now)),
            forall|id: Seq<char>| id != credential_id@ ==> final(self).token_of(id) == old(self).token_of(id),
            forall|id: Seq<char>| final(self).credentials_of(id) == old(self).credentials_of(id),
            match r {
                Ok(t) => t.token_type == AuthMethod::ApiKey ==> forall|at: u64|
                    #[trigger] header_verdict(final(self).token_entries(), method_name(t.token_type) + " "@ + t.token@, at) is Ok,
                Err(_) => true,
            },
    {
        proof { use_type_invariant(&*self); }
        match self.tokens.get(credential_id) {
            Some(t) => {
                if !t.is_expired_at(now) {
                    let c = t.clone();
                    proof { api_key_law(self.token_entries(), credential_id@, *t); }
                    return Ok(c);
                }
            },
            None => {},
        }
        let credentials = match self.credentials.get(credential_id) {
            Some(c) => c,
            None => return Err(McpError::AuthenticationError(concat2("Credentials not found: ", credential_id))),
        };
        let token = match &credentials.method {
            AuthMethod::ApiKey => match &credentials.api_key {
                Some(k) => AuthToken::new_at(k.clone(), AuthMethod::ApiKey, None, now),
                None => return Err(McpError::AuthenticationError(owned("API key not provided"))),
            },
            AuthMethod::OAuth2 => AuthToken::new_at(fresh, AuthMethod::OAuth2, Some(TOKEN_LIFETIME_SECS), now),
            AuthMethod::Bearer => AuthToken::new_at(fresh, AuthMethod::Bearer, Some(TOKEN_LIFETIME_SECS), now),
            AuthMethod::Custom(name) => return Err(McpError::AuthenticationError(
                concat2("Custom auth method not implemented: ", name.as_str()))),
        };
        let kept = token.clone();
        let key = owned(credential_id);
        let mut tokens = KeyedList::new();
        std::mem::swap(&mut tokens, &mut self.tokens);
        let ghost before = tokens.entries();
        let ghost entry = (key, kept);
        tokens.insert(key, kept);
        proof {
            assert(issued(kept));
            let after = tokens.entries();
            assert forall|j: int| 0 <= j < after.len() implies issued(#[trigger] after[j].1) by {
                if has_name(before, entry.0@) {
                    let c = choose|i: int| 0 <= i < before.len() && before[i].0@ == entry.0@;
                    if j != c { assert(after[j] == before[j]); }
                } else {
                    if j < before.len() { assert(after[j] == before[j]); }
                }
            }
        }
        self.tokens = tokens;
        proof {
            use_type_invariant(&*self);
            api_key_law(self.token_entries(), credential_id@, token);
        }
        Ok(token)
    }

    /// A token for the credentials `credential_id`, by the clock, with a fresh
    /// UUID as the text of a new token that needs one.
    pub fn get_token(&mut self, credential_id: &str) -> (r: McpResult<AuthToken>)
        ensures
            old(self).token_of(credential_id@) is None ==> match old(self).credentials_of(credential_id@) {
                None => r matches Err(McpError::AuthenticationError(m)) && m@ == "Credentials not found: "@ + credential_id@,
                Some(c) => match c.method {
                    AuthMethod::ApiKey => match c.api_key {
                        Some(k) => r matches Ok(t) && t.token == k && t.token_type == AuthMethod::ApiKey && t.expires_at is None,
                        None => r matches Err(McpError::AuthenticationError(m)) && m@ == "API key not provided"@,
                    },
                    AuthMethod::Custom(n) => r matches Err(McpError::AuthenticationError(m)) && m@ == "Custom auth method not implemented: "@ + n@,
                    _ => r matches Ok(t) && t.token_type == c.method && is_uuid_text(t.token@) && t.expires_at is Some,
                },
            },
            r matches Ok(t) ==> final(self).token_of(credential_id@) == Some(t),
            forall|id: Seq<char>| id != credential_id@ ==> final(self).token_of(id) == old(self).token_of(id),
            forall|id: Seq<char>| final(self).credentials_of(id) == old(self).credentials_of(id),
            match r {
                Ok(t) => t.token_type == AuthMethod::ApiKey ==> forall|at: u64|
                    #[trigger] header_verdict(final(self).token_entries(), method_name(t.token_type) + " "@ + t.token@, at) is Ok,
                Err(_) => true,
            },
            exists|now: u64, fresh: String| is_uuid_text(fresh@)
                && #[trigger] token_handed(*old(self), *final(self), credential_id@, now, fresh, r)
                && (now < u64::MAX ==> (r matches Ok(t) ==> !expired_at(t, now))),
    {
        let now = now_secs();
        let fresh = new_uuid_string();
        let ghost f = fresh;
        let r = self.get_token_at(credential_id, now, fresh);
        assert(is_uuid_text(f@) && token_handed(*old(self), *self, credential_id@, now, f, r)
            && (now < u64::MAX ==> (r matches Ok(t) ==> !expired_at(t, now))));
        r
    }

    /// The verdict on an `Authorization` header at time `now`.
    pub fn validate_token_at(&self, auth_header: &str, now: u64) -> (r: McpResult<()>)
        ensures
            match header_verdict(self.token_entries(), auth_header@, now) {
                Ok(()) => r is Ok,
                Err(m) => r matches Err(McpError::AuthenticationError(e)) && e@ == m,
            },
    {
        let h = chars_of(auth_header);
        let mut i: usize = 0;
        while i < h.len() && h[i] != ' '
            invariant
                i <= h@.len(),
                forall|j: int| 0 <= j < i ==> h@[j] != ' ',
            decreases h.len() - i,
        {
            i = i + 1;
        }
        if i == h.len() {
            proof {
                assert(!auth_header@.contains(' '));
            }
            return Err(McpError::AuthenticationError(owned("Invalid Authorization header format")));
        }
        let ghost parts = header_parts(auth_header@);
        proof {
            assert(auth_header@.contains(' ')) by { assert(h@[i as int] == ' '); }
            let c = choose|c: int| 0 <= c < h@.len() && h@[c] == ' ' && forall|j: int| 0 <= j < c ==> h@[j] != ' ';
            if c < i { assert(h@[c] != ' '); }
            if c > i { assert(h@[i as int] != ' '); }
            assert(c == i);
        }
        let mut kind_chars: Vec<char> = Vec::new();
        let mut k: usize = 0;
        while k < i
            invariant
                k <= i < h@.len(),
                kind_chars@ == h@.subrange(0, k as int),
            decreases i - k,
        {
            kind_chars.push(h[k]);
            k = k + 1;
            assert(kind_chars@ =~= h@.subrange(0, k as int));
        }
        let mut value_chars: Vec<char> = Vec::new();
        let mut k: usize = i + 1;
        while k < h.len()
            invariant
                i + 1 <= k <= h@.len(),
                value_chars@ == h@.subrange(i + 1, k as int),
            decreases h.len() - k,
        {
            value_chars.push(h[k]);
            k = k + 1;
            assert(value_chars@ =~= h@.subrange(i + 1, k as int));
        }
        let kind = string_of(kind_chars.as_slice());
        let value = string_of(value_chars.as_slice());
        let n = self.tokens.len();
        let mut j: usize = 0;
        while j < n
            invariant
                j <= n,
                n == self.token_entries().len(),
                parts == Some((kind@, value@)),
                header_parts(auth_header@) == parts,
                forall|a: int| 0 <= a < j ==> !presents(#[trigger] self.token_entries()[a].1, kind@, value@),
            decreases n - j,
        {
            let (_, t) = self.tokens.entry_at(j);
            let name = t.token_type.to_string();
            if str_eq(name.as_str(), kind.as_str()) && str_eq(t.token.as_str(), value.as_str()) {
                proof {
                    let es = self.token_entries();
                    assert(presents(es[j as int].1, kind@, value@));
                    let c = choose|c: int| 0 <= c < es.len() && presents(#[trigger] es[c].1, kind@, value@)
                        && forall|b: int| 0 <= b < c ==> !presents(#[trigger] es[b].1, kind@, value@);
                    if c > j { assert(!presents(es[j as int].1, kind@, value@)); }
                    assert(c == j);
                }
                if t.is_expired_at(now) {
                    return Err(McpError::AuthenticationError(owned("Token expired")));
                }
                return Ok(());
            }
            j = j + 1;
        }
        Err(McpError::AuthenticationError(owned("Invalid token")))
    }

    /// The verdict on an `Authorization` header by the clock: it must be a
    /// method name and a token separated by a space, and name a token handed
    /// out that has not expired.
    pub fn validate_token(&self, auth_header: &str) -> (r: McpResult<()>)
        ensures
            exists|now: u64| match #[trigger] header_verdict(self.token_entries(), auth_header@, now) {
                Ok(()) => r is Ok,
                Err(m) => r matches Err(McpError::AuthenticationError(e)) && e@ == m,
            },
            header_parts(auth_header@) is None ==> (r matches Err(McpError::AuthenticationError(m)) && m@ == "Invalid Authorization header format"@),
            r is Ok ==> (header_parts(auth_header@) matches Some((kind, value))
                && exists|i: int| 0 <= i < self.token_entries().len() && presents(#[trigger] self.token_entries()[i].1, kind, value)),
    {
        let now = now_secs();
        let r = self.validate_token_at(auth_header, now);
        assert(match header_verdict(self.token_entries(), auth_header@, now) {
            Ok(()) => r is Ok,
            Err(m) => r matches Err(McpError::AuthenticationError(e)) && e@ == m,
        });
        r
    }

    /// Forgets the token handed out for the credentials `credential_id`.
    pub fn revoke_token(&mut self, credential_id: &str) -> (r: McpResult<()>)
        ensures
            r is Ok,
            final(self).token_of(credential_id@) is None,
            forall|id: Seq<char>| id != credential_id@ ==> final(self).token_of(id) == old(self).token_of(id),
            forall|id: Seq<char>| final(self).credentials_of(id) == old(self).credentials_of(id),
    {
        proof { use_type_invariant(&*self); }
        let mut tokens = KeyedList::new();
        std::mem::swap(&mut tokens, &mut self.tokens);
        let ghost before = tokens.entries();
        let _ = tokens.remove(credential_id);
        proof {
            if tokens.entries() != before {
                let i = choose|i: int| 0 <= i < before.len() && tokens.entries() == before.remove(i);
                assert forall|j: int| 0 <= j < tokens.entries().len() implies issued(#[trigger] tokens.entries()[j].1) by {
                    if j < i { assert(tokens.entries()[j] == before[j]); } else { assert(tokens.entries()[j] == before[j + 1]); }
                }
            }
        }
        self.tokens = tokens;
        Ok(())
    }
}

impl Default for AuthService {
    fn default() -> (r: Self)
        ensures
            forall|id: Seq<char>| r.token_of(id) is None && r.credentials_of(id) is None,
    {
        AuthService::new()
    }
}

} // verus!
