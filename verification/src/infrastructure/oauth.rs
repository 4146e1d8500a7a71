//! OAuth 2.1 with PKCE: the decisions of the authorization flow, the PKCE
//! values, the authorization URL, the token request and its response.

use vstd::prelude::*;
use crate::domain::errors::{ErrorCode, MCPError};
use crate::domain::services::{env_texts, resolve_refs, EnvResolver};
use crate::domain::value_objects::OAuthConfig;
use crate::json::{as_text, entries_model, lookup, object_get, Json, JsonValue};
use crate::strmap::StrMap;
use crate::text::{append_str, opt_string_view, u64_to_decimal, decimal};
use vstd::string::StringSliceAdditionalSpecFns;
use base64::Engine;
use rand::Rng;
use sha2::Digest;

verus! {

/// Names the unpadded URL-safe Base64 text that the `base64` crate gives for
/// a sequence of bytes.
pub uninterp spec fn base64_url_text(bytes: Seq<u8>) -> Seq<char>;

/// Names the SHA-256 digest that the `sha2` crate computes.
pub uninterp spec fn sha256_of(bytes: Seq<u8>) -> Seq<u8>;

/// Names what the `url` crate makes of a base URL with query pairs appended:
/// the URL text, or the text of the parse error.
pub uninterp spec fn url_with_query_pairs(base: Seq<char>, pairs: Seq<(Seq<char>, Seq<char>)>) -> Result<Seq<char>, Seq<char>>;

/// The length of the unpadded Base64 text of `n` bytes.
pub open spec fn base64_unpadded_len(n: nat) -> nat {
    4 * (n / 3) + if n % 3 == 1 { 2nat } else if n % 3 == 2 { 3nat } else { 0nat }
}

/// Whether a character is in the URL-safe Base64 alphabet: `A`-`Z`, `a`-`z`,
/// `0`-`9`, `-` and `_`.
pub open spec fn is_url_safe_base64(c: char) -> bool {
    ('A' <= c <= 'Z') || ('a' <= c <= 'z') || ('0' <= c <= '9') || c == '-' || c == '_'
}

/// `base64::engine::general_purpose::URL_SAFE_NO_PAD.encode`: the bytes in
/// URL-safe Base64 without padding. The crate's source computes the length
/// with `encoded_len` (four characters for each three bytes, two or three for
/// a rest of one or two bytes), writes only characters of the `URL_SAFE`
/// alphabet, and panics only when that length does not fit in a `usize` or
/// the buffer of that length cannot be allocated, which the bound leaves out.
/// Beyond the length and the alphabet only the name is claimed.
#[verifier::external_body]
fn base64_url_no_pad(bytes: &[u8]) -> (r: String)
    requires
        base64_unpadded_len(bytes@.len()) <= isize::MAX,
    ensures
        r@ == base64_url_text(bytes@),
        r@.len() == base64_unpadded_len(bytes@.len()),
        forall|i: int| 0 <= i < r@.len() ==> is_url_safe_base64(#[trigger] r@[i]),
{
    base64::engine::general_purpose::URL_SAFE_NO_PAD.encode(bytes)
}

/// `sha2::Sha256::digest`: the SHA-256 digest of the bytes, 32 bytes long.
/// Beyond the length only the name is claimed.
#[verifier::external_body]
fn sha256(bytes: &[u8]) -> (r: Vec<u8>)
    ensures
        r@ == sha256_of(bytes@),
        r@.len() == 32,
{
    sha2::Sha256::digest(bytes).to_vec()
}

/// The thread-local random generator of the `rand` crate.
#[verifier::external_type_specification]
#[verifier::external_body]
pub struct ExThreadRng(rand::rngs::ThreadRng);

/// `rand::rng()`: a handle on the thread-local random generator.
#[verifier::external_body]
fn thread_rng() -> (r: rand::rngs::ThreadRng) {
    rand::rng()
}

/// `Rng::random::<u8>()`: a random byte from the generator. Nothing is
/// claimed of its value, which rests on chance.
#[verifier::external_body]
fn random_byte(rng: &mut rand::rngs::ThreadRng) -> (r: u8) {
    rng.random::<u8>()
}

/// `n` random bytes.
fn random_bytes(n: usize) -> (r: Vec<u8>)
    ensures
        r@.len() == n,
{
    let mut rng = thread_rng();
    let mut v: Vec<u8> = Vec::new();
    let mut i: usize = 0;
    while i < n
        invariant
            i <= n,
            v@.len() == i,
        decreases n - i,
    {
        v.push(random_byte(&mut rng));
        i = i + 1;
    }
    v
}

/// `url::Url::parse` on `base`, then `query_pairs_mut().append_pair` for each
/// pair in order, then the URL as text; the error is the text of the parse
/// error. Only the name is claimed of the result.
#[verifier::external_body]
fn url_with_query(base: &str, pairs: &Vec<(String, String)>) -> (r: Result<String, String>)
    ensures
        match r {
            Ok(u) => url_with_query_pairs(base@, pair_views(pairs@)) == Ok::<Seq<char>, Seq<char>>(u@),
            Err(e) => url_with_query_pairs(base@, pair_views(pairs@)) == Err::<Seq<char>, Seq<char>>(e@),
        },
{
    match url::Url::parse(base) {
        Ok(mut url) => {
            for (k, v) in pairs.iter() {
                url.query_pairs_mut().append_pair(k, v);
            }
            Ok(url.to_string())
        },
        Err(e) => Err(e.to_string()),
    }
}

/// The texts of a list of pairs.
pub open spec fn pair_views(pairs: Seq<(String, String)>) -> Seq<(Seq<char>, Seq<char>)> {
    Seq::new(pairs.len(), |i: int| (pairs[i].0@, pairs[i].1@))
}

/// How authentication is obtained from an OAuth configuration.
#[derive(Debug)]
pub enum OAuthPlan {
    /// A configured access token, with its environment references resolved.
    StaticToken(String),
    /// The authorization code flow with these endpoints.
    Flow,
    /// No authentication is configured: the token is empty.
    NoAuth,
}

/// The endpoints and client of the authorization code flow.
#[derive(Debug)]
pub struct OAuthFlowParams {
    pub client_id: String,
    pub authorization_url: String,
    pub token_url: String,
}

/// What the authorization callback received.
#[derive(Debug)]
pub enum CallbackOutcome {
    /// An authorization code with the expected state.
    Code(String),
    /// The reason the callback failed.
    Failed(String),
}

/// What waiting for the callback gave.
#[derive(Debug)]
pub enum CallbackWait {
    /// The callback delivered a code.
    Code(String),
    /// The callback, or the channel, reported an error.
    Error(String),
    /// Nothing came within five minutes.
    TimedOut,
}

/// The outcome of a callback with the given query parameters.
pub open spec fn callback_outcome_of(code: Option<Seq<char>>, state: Option<Seq<char>>, expected: Seq<char>) -> Result<Seq<char>, Seq<char>> {
    match code {
        Some(c) => if state == Some(expected) { Ok(c) } else { Err("State mismatch"@) },
        None => Err("No code in callback"@),
    }
}

/// The form of a token request.
pub open spec fn token_form(
    code: Seq<char>,
    code_verifier: Seq<char>,
    redirect_uri: Seq<char>,
    client_id: Seq<char>,
    client_secret: Option<Seq<char>>,
) -> Seq<(Seq<char>, Seq<char>)> {
    let base = seq![
        ("grant_type"@, "authorization_code"@),
        ("code"@, code),
        ("redirect_uri"@, redirect_uri),
        ("code_verifier"@, code_verifier),
        ("client_id"@, client_id),
    ];
    match client_secret {
        Some(s) => base.push(("client_secret"@, s)),
        None => base,
    }
}

/// The query pairs of an authorization URL.
pub open spec fn auth_query(
    client_id: Seq<char>,
    redirect_uri: Seq<char>,
    scope: Seq<char>,
    state: Seq<char>,
    code_challenge: Seq<char>,
) -> Seq<(Seq<char>, Seq<char>)> {
    seq![
        ("response_type"@, "code"@),
        ("client_id"@, client_id),
        ("redirect_uri"@, redirect_uri),
        ("scope"@, scope),
        ("state"@, state),
        ("code_challenge"@, code_challenge),
        ("code_challenge_method"@, "S256"@),
    ]
}

/// The scope of an authorization request: the configured scopes with their
/// environment references resolved, "openid profile" when none are given.
pub open spec fn scope_of(scopes: Option<Seq<char>>, env: Map<Seq<char>, Seq<char>>) -> Seq<char> {
    match scopes {
        Some(s) => resolve_refs(s, env),
        None => "openid profile"@,
    }
}

/// An authentication error with the given message.
pub open spec fn is_auth_error(e: MCPError, message: Seq<char>) -> bool {
    e.code == ErrorCode::AuthFailed && e.message@ == message && e.details is None
}

/// The OAuth service.
pub struct OAuthServiceImpl;

impl OAuthServiceImpl {
    /// The service.
    pub fn new() -> (r: Self)
        ensures
            r == OAuthServiceImpl,
    {
        OAuthServiceImpl
    }

    /// How authentication is obtained: a configured access token is used
    /// directly (with its environment references resolved); else a client id,
    /// authorization URL and token URL together call for the authorization
    /// code flow; else there is no authentication.
    pub fn plan(config: &OAuthConfig, env: &StrMap<String>) -> (r: OAuthPlan)
        ensures
            match r {
                OAuthPlan::StaticToken(t) => config.access_token matches Some(a) && t@ == resolve_refs(a@, env_texts(*env)),
                OAuthPlan::Flow => config.access_token is None && config.client_id is Some
                    && config.authorization_url is Some && config.token_url is Some,
                OAuthPlan::NoAuth => config.access_token is None && !(config.client_id is Some
                    && config.authorization_url is Some && config.token_url is Some),
            },
    {
        if let Some(token) = &config.access_token {
            return OAuthPlan::StaticToken(EnvResolver::resolve(token.as_str(), env));
        }
        if config.client_id.is_some() && config.authorization_url.is_some() && config.token_url.is_some() {
            return OAuthPlan::Flow;
        }
        OAuthPlan::NoAuth
    }

    /// The client id, authorization URL and token URL of the flow; an
    /// authentication error names the first that is missing.
    pub fn flow_params(config: &OAuthConfig) -> (r: Result<OAuthFlowParams, MCPError>)
        ensures
            match r {
                Ok(p) => config.client_id == Some(p.client_id)
                    && config.authorization_url == Some(p.authorization_url)
                    && config.token_url == Some(p.token_url),
                Err(e) => if config.client_id is None {
                    is_auth_error(e, "Missing client_id"@)
                } else if config.authorization_url is None {
                    is_auth_error(e, "Missing authorization_url"@)
                } else {
                    config.token_url is None && is_auth_error(e, "Missing token_url"@)
                },
            },
    {
        let client_id = match &config.client_id {
            Some(c) => c.clone(),
            None => return Err(MCPError::auth_failed("Missing client_id")),
        };
        let authorization_url = match &config.authorization_url {
            Some(a) => a.clone(),
            None => return Err(MCPError::auth_failed("Missing authorization_url")),
        };
        let token_url = match &config.token_url {
            Some(t) => t.clone(),
            None => return Err(MCPError::auth_failed("Missing token_url")),
        };
        Ok(OAuthFlowParams { client_id, authorization_url, token_url })
    }

    /// The callback URL for a local port: `http://127.0.0.1:<port>/callback`.
    pub fn callback_url(port: u16) -> (r: String)
        ensures
            r@ == "http://127.0.0.1:"@ + decimal(port as nat) + "/callback"@,
    {
        let mut s = "http://127.0.0.1:".to_owned();
        append_str(&mut s, u64_to_decimal(port as u64).as_str());
        append_str(&mut s, "/callback");
        s
    }

    /// The outcome of the authorization callback: the code when it comes with
    /// the expected state; "State mismatch" when the state differs; "No code
    /// in callback" when there is no code.
    pub fn callback_outcome(code: Option<&str>, state: Option<&str>, expected_state: &str) -> (r: CallbackOutcome)
        ensures
            match r {
                CallbackOutcome::Code(c) => callback_outcome_of(crate::text::opt_str_view(code), crate::text::opt_str_view(state), expected_state@)
                    == Ok::<Seq<char>, Seq<char>>(c@),
                CallbackOutcome::Failed(m) => callback_outcome_of(crate::text::opt_str_view(code), crate::text::opt_str_view(state), expected_state@)
                    == Err::<Seq<char>, Seq<char>>(m@),
            },
    {
        match code {
            Some(c) => {
                let state_matches = match state {
                    Some(s) => crate::text::str_eq(s, expected_state),
                    None => false,
                };
                if state_matches {
                    CallbackOutcome::Code(c.to_owned())
                } else {
                    CallbackOutcome::Failed("State mismatch".to_owned())
                }
            },
            None => CallbackOutcome::Failed("No code in callback".to_owned()),
        }
    }

    /// The page shown in the browser after the callback.
    pub fn callback_page(outcome: &CallbackOutcome) -> (r: &'static str)
        ensures
            outcome is Code ==> r@ == "<html><body><h1>Authorization Complete</h1><p>You can close this window.</p></body></html>"@,
            outcome matches CallbackOutcome::Failed(m) && m@ == "State mismatch"@ ==>
                r@ == "<html><body><h1>Authorization Failed</h1><p>State mismatch.</p></body></html>"@,
            outcome matches CallbackOutcome::Failed(m) && m@ != "State mismatch"@ ==>
                r@ == "<html><body><h1>Authorization Failed</h1><p>No authorization code received.</p></body></html>"@,
    {
        match outcome {
            CallbackOutcome::Code(_) => "<html><body><h1>Authorization Complete</h1><p>You can close this window.</p></body></html>",
            CallbackOutcome::Failed(m) => if crate::text::str_eq(m.as_str(), "State mismatch") {
                "<html><body><h1>Authorization Failed</h1><p>State mismatch.</p></body></html>"
            } else {
                "<html><body><h1>Authorization Failed</h1><p>No authorization code received.</p></body></html>"
            },
        }
    }

    /// The code that waiting for the callback gave, or the authentication
    /// error: "OAuth error: ..." for a reported error, a timeout message when
    /// nothing came within five minutes.
    pub fn code_from_wait(wait: CallbackWait) -> (r: Result<String, MCPError>)
        ensures
            match wait {
                CallbackWait::Code(c) => r == Ok::<String, MCPError>(c),
                CallbackWait::Error(m) => r matches Err(e) && is_auth_error(e, "OAuth error: "@ + m@),
                CallbackWait::TimedOut => r matches Err(e) && is_auth_error(e, "OAuth authorization timed out after 5 minutes"@),
            },
    {
        match wait {
            CallbackWait::Code(c) => Ok(c),
            CallbackWait::Error(m) => {
                let mut text = "OAuth error: ".to_owned();
                append_str(&mut text, m.as_str());
                Err(MCPError::auth_failed(text.as_str()))
            },
            CallbackWait::TimedOut => Err(MCPError::auth_failed("OAuth authorization timed out after 5 minutes")),
        }
    }

    /// The form of the token request: grant type, code, redirect URI, code
    /// verifier and client id (its environment references resolved), and the
    /// client secret (resolved too) when there is one.
    pub fn token_request_form(
        code: &str,
        code_verifier: &str,
        redirect_uri: &str,
        client_id: &str,
        client_secret: Option<&str>,
        env: &StrMap<String>,
    ) -> (r: Vec<(String, String)>)
        ensures
            pair_views(r@) == token_form(
                code@,
                code_verifier@,
                redirect_uri@,
                resolve_refs(client_id@, env_texts(*env)),
                match client_secret {
                    Some(s) => Some(resolve_refs(s@, env_texts(*env))),
                    None => None,
                },
            ),
    {
        let mut form: Vec<(String, String)> = Vec::new();
        form.push(("grant_type".to_owned(), "authorization_code".to_owned()));
        form.push(("code".to_owned(), code.to_owned()));
        form.push(("redirect_uri".to_owned(), redirect_uri.to_owned()));
        form.push(("code_verifier".to_owned(), code_verifier.to_owned()));
        form.push(("client_id".to_owned(), EnvResolver::resolve(client_id, env)));
        if let Some(secret) = client_secret {
            form.push(("client_secret".to_owned(), EnvResolver::resolve(secret, env)));
        }
        assert(pair_views(form@) =~= token_form(
            code@,
            code_verifier@,
            redirect_uri@,
            resolve_refs(client_id@, env_texts(*env)),
            match client_secret {
                Some(s) => Some(resolve_refs(s@, env_texts(*env))),
                None => None,
            },
        ));
        form
    }

    /// The error of a token endpoint that did not answer with success.
    pub fn token_exchange_failed(body: &str) -> (r: MCPError)
        ensures
            is_auth_error(r, "Token exchange failed: "@ + body@),
    {
        let mut text = "Token exchange failed: ".to_owned();
        append_str(&mut text, body);
        MCPError::auth_failed(text.as_str())
    }

    /// The access token of a token response: the text under "access_token";
    /// an authentication error when the response did not parse or has none.
    pub fn access_token_from(response: Result<JsonValue, String>) -> (r: Result<String, MCPError>)
        ensures
            match response {
                Ok(v) => match v.model() {
                    Json::Object(m) => match as_text(lookup(m, "access_token"@)) {
                        Some(t) => r matches Ok(tok) && tok@ == t,
                        None => r matches Err(e) && is_auth_error(e, "No access token in response"@),
                    },
                    _ => r matches Err(e) && is_auth_error(e, "No access token in response"@),
                },
                Err(msg) => r matches Err(e) && is_auth_error(e, "Failed to parse token response: "@ + msg@),
            },
    {
        match response {
            Ok(v) => {
                match v.as_object() {
                    Some(m) => match object_get(m, "access_token") {
                        Some(t) => match t.as_str() {
                            Some(s) => Ok(s.clone()),
                            None => Err(MCPError::auth_failed("No access token in response")),
                        },
                        None => Err(MCPError::auth_failed("No access token in response")),
                    },
                    None => Err(MCPError::auth_failed("No access token in response")),
                }
            },
            Err(msg) => {
                let mut text = "Failed to parse token response: ".to_owned();
                append_str(&mut text, msg.as_str());
                Err(MCPError::auth_failed(text.as_str()))
            },
        }
    }
}

/// A PKCE code verifier: `length` random bytes in unpadded URL-safe Base64.
pub fn generate_code_verifier(length: usize) -> (r: String)
    requires
        base64_unpadded_len(length as nat) <= isize::MAX,
    ensures
        exists|b: Seq<u8>| b.len() == length && r@ == #[trigger] base64_url_text(b),
        r@.len() == base64_unpadded_len(length as nat),
        forall|i: int| 0 <= i < r@.len() ==> is_url_safe_base64(#[trigger] r@[i]),
{
    let bytes = random_bytes(length);
    base64_url_no_pad(bytes.as_slice())
}

/// The PKCE code challenge of a verifier: the SHA-256 digest of its UTF-8
/// bytes in unpadded URL-safe Base64.
pub fn generate_code_challenge(verifier: &str) -> (r: String)
    ensures
        r@ == base64_url_text(sha256_of(verifier.spec_bytes())),
        r@.len() == 43,
        forall|i: int| 0 <= i < r@.len() ==> is_url_safe_base64(#[trigger] r@[i]),
{
    let digest = sha256(verifier.as_bytes());
    base64_url_no_pad(digest.as_slice())
}

/// A random state parameter: `length` random bytes in unpadded URL-safe
/// Base64.
pub fn generate_state(length: usize) -> (r: String)
    requires
        base64_unpadded_len(length as nat) <= isize::MAX,
    ensures
        exists|b: Seq<u8>| b.len() == length && r@ == #[trigger] base64_url_text(b),
        r@.len() == base64_unpadded_len(length as nat),
        forall|i: int| 0 <= i < r@.len() ==> is_url_safe_base64(#[trigger] r@[i]),
{
    let bytes = random_bytes(length);
    base64_url_no_pad(bytes.as_slice())
}

/// The authorization URL: the base URL with the query pairs response_type,
/// client_id, redirect_uri, scope, state, code_challenge and
/// code_challenge_method (S256) appended in that order; the scope is the
/// configured one with its environment references resolved, "openid profile"
/// when none is configured. The error is the text of the URL parse error.
pub fn build_auth_url(
    auth_url: &str,
    client_id: &str,
    redirect_uri: &str,
    state: &str,
    code_challenge: &str,
    scopes: Option<&str>,
    env: &StrMap<String>,
) -> (r: Result<String, String>)
    ensures
        match r {
            Ok(u) => url_with_query_pairs(auth_url@, auth_query(client_id@, redirect_uri@,
                scope_of(crate::text::opt_str_view(scopes), env_texts(*env)), state@, code_challenge@))
                == Ok::<Seq<char>, Seq<char>>(u@),
            Err(e) => url_with_query_pairs(auth_url@, auth_query(client_id@, redirect_uri@,
                scope_of(crate::text::opt_str_view(scopes), env_texts(*env)), state@, code_challenge@))
                == Err::<Seq<char>, Seq<char>>(e@),
        },
{
    let scope = match scopes {
        Some(s) => EnvResolver::resolve(s, env),
        None => "openid profile".to_owned(),
    };
    let mut pairs: Vec<(String, String)> = Vec::new();
    pairs.push(("response_type".to_owned(), "code".to_owned()));
    pairs.push(("client_id".to_owned(), client_id.to_owned()));
    pairs.push(("redirect_uri".to_owned(), redirect_uri.to_owned()));
    pairs.push(("scope".to_owned(), scope));
    pairs.push(("state".to_owned(), state.to_owned()));
    pairs.push(("code_challenge".to_owned(), code_challenge.to_owned()));
    pairs.push(("code_challenge_method".to_owned(), "S256".to_owned()));
    assert(pair_views(pairs@) =~= auth_query(client_id@, redirect_uri@,
        scope_of(crate::text::opt_str_view(scopes), env_texts(*env)), state@, code_challenge@));
    url_with_query(auth_url, &pairs)
}

/// A verifier of 32 random bytes is 43 characters long.
pub proof fn law_verifier_length()
    ensures
        base64_unpadded_len(32) == 43,
{
}

} // verus!
