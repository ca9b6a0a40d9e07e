use vstd::prelude::*;
use vstd::string::StringExecFns;
use crate::ids::{id_text, parsed_id, uuid_string};
use crate::text::opt_text;

verus! {

/// Lifetime of an access token, in seconds.
pub const ACCESS_TOKEN_EXPIRY_SECS: u64 = 3600;

/// Lifetime of a refresh token and of its cache entry, in seconds (30 days).
pub const REFRESH_TOKEN_EXPIRY_SECS: u64 = 2592000;

/// The signing secret used when none is configured; for local development only.
pub const DEFAULT_JWT_SECRET: &'static str = "your-secret-key-change-in-production";

/// The signed payload of a token: the user's id as text, the email, the expiry
/// as a Unix timestamp in seconds, and the session generation, which each new
/// issuance for a user raises so that no two successive tokens coincide.
#[derive(Clone, Debug)]
pub struct Claims {
    pub sub: String,
    pub email: String,
    pub exp: u64,
    pub generation: u64,
}

impl View for Claims {
    type V = ClaimsView;

    open spec fn view(&self) -> Self::V {
        (self.sub@, self.email@, self.exp, self.generation)
    }
}

/// The claims of a token as plain values: subject, email, expiry, generation.
pub type ClaimsView = (Seq<char>, Seq<char>, u64, u64);

/// Why a token was not accepted.
#[derive(Clone, Copy, Debug, PartialEq, Eq, Structural)]
pub enum TokenError {
    InvalidSignature,
    Expired,
}

/// The claims that a token carries under a secret: `None` where the token is
/// malformed, is not signed with that secret, or lacks a text subject, a text
/// email, a whole-number expiry or a whole-number generation.
pub uninterp spec fn token_claims(token: Seq<char>, secret: Seq<u8>) -> Option<ClaimsView>;

/// Relies on jsonwebtoken's `encode` with the default header (HS256): with an
/// HMAC key and a JSON map of claims it always succeeds, the token carries the
/// claims `sub`, `email`, `exp` and `gen`, and `decode` with the same secret
/// gives them back.
#[verifier::external_body]
fn sign_claims(sub: &str, email: &str, exp: u64, generation: u64, secret: &[u8]) -> (r: Option<String>)
    ensures
        r is Some,
        r matches Some(t) ==> token_claims(t@, secret@) == Some((sub@, email@, exp, generation)),
{
    let mut claims = serde_json::Map::new();
    claims.insert(String::from("sub"), serde_json::Value::from(sub));
    claims.insert(String::from("email"), serde_json::Value::from(email));
    claims.insert(String::from("exp"), serde_json::Value::from(exp));
    claims.insert(String::from("gen"), serde_json::Value::from(generation));
    let key = jsonwebtoken::EncodingKey::from_secret(secret);
    jsonwebtoken::encode(&jsonwebtoken::Header::default(), &claims, &key).ok()
}

/// Relies on jsonwebtoken's `decode` with HS256 and the expiry check switched
/// off (expiry is checked against an explicit clock by `verify_jwt`): it checks
/// the shape and the signature and hands back the claims.
#[verifier::external_body]
fn decode_claims(token: &str, secret: &[u8]) -> (r: Option<(String, String, u64, u64)>)
    ensures
        match r {
            Some(c) => token_claims(token@, secret@) == Some((c.0@, c.1@, c.2, c.3)),
            None => token_claims(token@, secret@) is None,
        },
{
    let mut rules = jsonwebtoken::Validation::default();
    rules.validate_exp = false;
    let key = jsonwebtoken::DecodingKey::from_secret(secret);
    let data = jsonwebtoken::decode::<serde_json::Map<String, serde_json::Value>>(token, &key, &rules).ok()?;
    let sub = data.claims.get("sub")?.as_str()?.to_string();
    let email = data.claims.get("email")?.as_str()?.to_string();
    let exp = data.claims.get("exp")?.as_u64()?;
    let generation = data.claims.get("gen")?.as_u64()?;
    Some((sub, email, exp, generation))
}

/// The signing secret: the configured one, else the development default.
pub fn get_jwt_secret(configured: Option<String>) -> (r: String)
    ensures
        r@ == match configured {
            Some(s) => s@,
            None => DEFAULT_JWT_SECRET@,
        },
{
    match configured {
        Some(s) => s,
        None => String::from_str(DEFAULT_JWT_SECRET),
    }
}

/// A token is live at `now` up to and including its expiry second.
pub open spec fn live_at(exp: u64, now: u64) -> bool {
    now <= exp
}

/// What verification makes of a token at time `now`.
pub open spec fn verify_outcome(token: Seq<char>, secret: Seq<u8>, now: u64) -> Result<ClaimsView, TokenError> {
    match token_claims(token, secret) {
        None => Err(TokenError::InvalidSignature),
        Some(c) => if live_at(c.2, now) {
            Ok(c)
        } else {
            Err(TokenError::Expired)
        },
    }
}

/// The generation that follows a token's: one more than the generation it
/// carries (wrapping to zero after the largest), or zero where there is no
/// readable previous token.
pub open spec fn next_generation(previous: Option<Seq<char>>, secret: Seq<u8>) -> u64 {
    match previous {
        None => 0,
        Some(p) => match token_claims(p, secret) {
            None => 0,
            Some(c) => if c.3 == u64::MAX {
                0
            } else {
                (c.3 + 1) as u64
            },
        },
    }
}

/// The generation for the tokens that replace `previous`.
pub fn session_generation(previous: &Option<String>, secret: &[u8]) -> (r: u64)
    ensures
        r == next_generation(opt_text(*previous), secret@),
{
    match previous {
        None => 0,
        Some(p) => match decode_claims(p.as_str(), secret) {
            None => 0,
            Some((_, _, _, g)) => if g == u64::MAX {
                0
            } else {
                g + 1
            },
        },
    }
}

/// Signs a token for a user, expiring `lifetime` seconds after `now`.
fn create_token(user_id: u128, email: &str, now: u64, lifetime: u64, generation: u64, secret: &[u8]) -> (r: String)
    requires
        now + lifetime <= u64::MAX,
    ensures
        token_claims(r@, secret@) == Some((id_text(user_id), email@, (now + lifetime) as u64, generation)),
        parsed_id(id_text(user_id)) == Some(user_id),
{
    let sub = uuid_string(user_id);
    match sign_claims(sub.as_str(), email, now + lifetime, generation, secret) {
        Some(t) => t,
        None => String::new(),
    }
}

/// Mints an access token that expires one hour after `now`.
pub fn create_access_token(user_id: u128, email: &str, now: u64, generation: u64, secret: &[u8]) -> (r: Result<String, TokenError>)
    requires
        now + ACCESS_TOKEN_EXPIRY_SECS <= u64::MAX,
    ensures
        r is Ok,
        r matches Ok(t) ==> token_claims(t@, secret@) == Some(
            (id_text(user_id), email@, (now + ACCESS_TOKEN_EXPIRY_SECS) as u64, generation),
        ),
        parsed_id(id_text(user_id)) == Some(user_id),
{
    Ok(create_token(user_id, email, now, ACCESS_TOKEN_EXPIRY_SECS, generation, secret))
}

/// Mints a refresh token that expires thirty days after `now`.
pub fn create_refresh_token(user_id: u128, email: &str, now: u64, generation: u64, secret: &[u8]) -> (r: Result<String, TokenError>)
    requires
        now + REFRESH_TOKEN_EXPIRY_SECS <= u64::MAX,
    ensures
        r is Ok,
        r matches Ok(t) ==> token_claims(t@, secret@) == Some(
            (id_text(user_id), email@, (now + REFRESH_TOKEN_EXPIRY_SECS) as u64, generation),
        ),
        parsed_id(id_text(user_id)) == Some(user_id),
{
    Ok(create_token(user_id, email, now, REFRESH_TOKEN_EXPIRY_SECS, generation, secret))
}

/// Checks a token's signature under `secret` and its expiry against `now`.
pub fn verify_jwt(token: &str, secret: &[u8], now: u64) -> (r: Result<Claims, TokenError>)
    ensures
        match r {
            Ok(c) => verify_outcome(token@, secret@, now) == Ok::<ClaimsView, TokenError>(c@),
            Err(e) => verify_outcome(token@, secret@, now) == Err::<ClaimsView, TokenError>(e),
        },
{
    match decode_claims(token, secret) {
        None => Err(TokenError::InvalidSignature),
        Some((sub, email, exp, generation)) => {
            if now <= exp {
                Ok(Claims { sub, email, exp, generation })
            } else {
                Err(TokenError::Expired)
            }
        },
    }
}

/// An access token minted at `issued_at` passes verification 59 minutes
/// later and is refused as expired 61 minutes later.
pub proof fn lemma_access_token_lifetime(
    token: Seq<char>,
    secret: Seq<u8>,
    user_id: u128,
    email: Seq<char>,
    issued_at: u64,
    generation: u64,
)
    requires
        issued_at + 61 * 60 <= u64::MAX,
        token_claims(token, secret) == Some(
            (id_text(user_id), email, (issued_at + ACCESS_TOKEN_EXPIRY_SECS) as u64, generation),
        ),
    ensures
        verify_outcome(token, secret, (issued_at + 59 * 60) as u64) == Ok::<ClaimsView, TokenError>(
            (id_text(user_id), email, (issued_at + ACCESS_TOKEN_EXPIRY_SECS) as u64, generation),
        ),
        verify_outcome(token, secret, (issued_at + 61 * 60) as u64) == Err::<ClaimsView, TokenError>(
            TokenError::Expired,
        ),
{
}

} // verus!
