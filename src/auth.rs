use vstd::prelude::*;
use vstd::string::StringExecFns;
use crate::errors::{ApiError, Backend, BackendFailure};
use crate::ids::{id_text, parse_id, parsed_id, refresh_token_key};
use crate::text::opt_text;
use crate::tokens::{
    create_access_token, create_refresh_token, next_generation, session_generation, token_claims,
    verify_jwt, verify_outcome, Claims, ClaimsView, TokenError, ACCESS_TOKEN_EXPIRY_SECS,
    REFRESH_TOKEN_EXPIRY_SECS,
};

verus! {

/// A user row as the handlers read it.
#[derive(Clone, Debug)]
pub struct UserRecord {
    pub id: u128,
    pub email: String,
    pub password_hash: String,
}

/// The public view of a user.
#[derive(Debug)]
pub struct UserResponse {
    pub id: u128,
    pub email: String,
}

#[derive(Debug)]
pub struct RegisterRequest {
    pub email: String,
    pub password: String,
}

#[derive(Debug)]
pub struct LoginRequest {
    pub email: String,
    pub password: String,
}

#[derive(Debug)]
pub struct RefreshRequest {
    pub refresh_token: String,
}

/// What register, login and refresh answer with.
#[derive(Debug)]
pub struct AuthResponse {
    pub access_token: String,
    pub refresh_token: String,
    pub token_type: String,
    pub expires_in: i64,
    pub user: UserResponse,
}

/// A freshly minted token pair, with the cache entry the refresh token goes to.
#[derive(Debug)]
pub struct IssuedSession {
    pub access_token: String,
    pub refresh_token: String,
    pub cache_key: String,
    pub ttl_secs: u64,
}

/// The outcome of the bcrypt check of a password against a stored hash:
/// `None` where the hash cannot be read.
pub uninterp spec fn password_verdict(password: Seq<char>, hash: Seq<char>) -> Option<bool>;

/// Relies on bcrypt's `hash`: a hash under a salt from the system's randomness;
/// it fails where the cost is outside 4 to 31 or randomness is unavailable, and
/// bcrypt's `verify` accepts the password against any hash it returns.
#[verifier::external_body]
fn bcrypt_hash(password: &str, cost: u32) -> (r: Option<String>)
    ensures
        r matches Some(h) ==> password_verdict(password@, h@) == Some(true),
{
    bcrypt::hash(password, cost).ok()
}

/// Relies on bcrypt's `verify`: whether the password hashes to the stored hash
/// under the salt and cost written in it.
#[verifier::external_body]
fn bcrypt_verify(password: &str, hash: &str) -> (r: Option<bool>)
    ensures
        r == password_verdict(password@, hash@),
{
    bcrypt::verify(password, hash).ok()
}

/// Whether registration may go on, given whether the email is already taken.
pub open spec fn register_gate(taken: bool) -> Result<(), ApiError> {
    if taken {
        Err(ApiError::UserExists)
    } else {
        Ok(())
    }
}

/// Registration, after looking the email up: a taken email is a conflict.
pub fn register_check_existing(found: &Result<Option<UserRecord>, BackendFailure>) -> (r: Result<(), ApiError>)
    ensures
        r == match found {
            Err(_) => Err(ApiError::Downstream(Backend::Database)),
            Ok(u) => register_gate(u is Some),
        },
{
    match found {
        Err(_) => Err(ApiError::Downstream(Backend::Database)),
        Ok(Some(_)) => Err(ApiError::UserExists),
        Ok(None) => Ok(()),
    }
}

/// Hashes a new user's password with bcrypt at the given cost. Success depends
/// on the system's randomness; any hash returned verifies against the password.
pub fn hash_password(password: &str, cost: u32) -> (r: Result<String, ApiError>)
    ensures
        r matches Ok(h) ==> password_verdict(password@, h@) == Some(true),
        r matches Err(e) ==> e == ApiError::Downstream(Backend::Hashing),
{
    match bcrypt_hash(password, cost) {
        Some(h) => Ok(h),
        None => Err(ApiError::Downstream(Backend::Hashing)),
    }
}

/// What login makes of the user found by email and the password given.
pub open spec fn login_outcome(found: Result<Option<UserRecord>, BackendFailure>, password: Seq<char>) -> Result<UserRecord, ApiError> {
    match found {
        Err(_) => Err(ApiError::Downstream(Backend::Database)),
        Ok(None) => Err(ApiError::InvalidCredentials),
        Ok(Some(u)) => match password_verdict(password, u.password_hash@) {
            None => Err(ApiError::Downstream(Backend::PasswordCheck)),
            Some(false) => Err(ApiError::InvalidCredentials),
            Some(true) => Ok(u),
        },
    }
}

/// Login, after looking the email up: an unknown email and a wrong password
/// are refused alike.
pub fn login_check_credentials(found: Result<Option<UserRecord>, BackendFailure>, password: &str) -> (r: Result<UserRecord, ApiError>)
    ensures
        r == login_outcome(found, password@),
{
    match found {
        Err(_) => Err(ApiError::Downstream(Backend::Database)),
        Ok(None) => Err(ApiError::InvalidCredentials),
        Ok(Some(u)) => match bcrypt_verify(password, u.password_hash.as_str()) {
            None => Err(ApiError::Downstream(Backend::PasswordCheck)),
            Some(false) => Err(ApiError::InvalidCredentials),
            Some(true) => Ok(u),
        },
    }
}

/// Mints the access and refresh tokens for a user at time `now`, replacing the
/// refresh token the cache held for the user (`previous`, as read from the
/// cache). The new tokens carry the generation after the previous token's, so
/// the new refresh token never equals the one it replaces. An unreadable cache
/// refuses the request.
pub fn issue_session(
    user_id: u128,
    email: &str,
    now: u64,
    secret: &[u8],
    previous: &Result<Option<String>, BackendFailure>,
) -> (r: Result<IssuedSession, ApiError>)
    requires
        now + REFRESH_TOKEN_EXPIRY_SECS <= u64::MAX,
    ensures
        r is Ok <==> previous is Ok,
        match r {
            Ok(s) => {
                let g = next_generation(opt_text(previous->Ok_0), secret@);
                &&& parsed_id(id_text(user_id)) == Some(user_id)
                &&& token_claims(s.access_token@, secret@) == Some(
                    (id_text(user_id), email@, (now + ACCESS_TOKEN_EXPIRY_SECS) as u64, g),
                )
                &&& token_claims(s.refresh_token@, secret@) == Some(
                    (id_text(user_id), email@, (now + REFRESH_TOKEN_EXPIRY_SECS) as u64, g),
                )
                &&& (previous->Ok_0 matches Some(p) ==> s.refresh_token@ != p@)
                &&& s.cache_key@ == "refresh_token:"@ + id_text(user_id)
                &&& s.ttl_secs == REFRESH_TOKEN_EXPIRY_SECS
            },
            Err(e) => e == ApiError::Downstream(Backend::Cache),
        },
{
    let prev = match previous {
        Err(_) => return Err(ApiError::Downstream(Backend::Cache)),
        Ok(p) => p,
    };
    let generation = session_generation(prev, secret);
    let access_token = match create_access_token(user_id, email, now, generation, secret) {
        Ok(t) => t,
        Err(_) => String::new(),
    };
    let refresh_token = match create_refresh_token(user_id, email, now, generation, secret) {
        Ok(t) => t,
        Err(_) => String::new(),
    };
    proof {
        if prev is Some {
            if refresh_token@ == prev->Some_0@ {
                assert(token_claims(prev->Some_0@, secret@) is Some);
            }
        }
    }
    Ok(IssuedSession {
        access_token,
        refresh_token,
        cache_key: refresh_token_key(user_id),
        ttl_secs: REFRESH_TOKEN_EXPIRY_SECS,
    })
}

/// The response once the refresh token has been written to the cache.
pub fn finish_session(stored: Result<(), BackendFailure>, session: IssuedSession, user: UserRecord) -> (r: Result<AuthResponse, ApiError>)
    ensures
        match r {
            Ok(a) => {
                &&& stored is Ok
                &&& a.access_token == session.access_token
                &&& a.refresh_token == session.refresh_token
                &&& a.token_type@ == "Bearer"@
                &&& a.expires_in == ACCESS_TOKEN_EXPIRY_SECS as i64
                &&& a.user.id == user.id
                &&& a.user.email == user.email
            },
            Err(e) => stored is Err && e == ApiError::Downstream(Backend::Cache),
        },
{
    match stored {
        Err(_) => Err(ApiError::Downstream(Backend::Cache)),
        Ok(()) => Ok(AuthResponse {
            access_token: session.access_token,
            refresh_token: session.refresh_token,
            token_type: String::from_str("Bearer"),
            expires_in: ACCESS_TOKEN_EXPIRY_SECS as i64,
            user: UserResponse { id: user.id, email: user.email },
        }),
    }
}

/// Which user a refresh token speaks for, if it is signed, unexpired and names one.
pub open spec fn refresh_token_user(token: Seq<char>, secret: Seq<u8>, now: u64) -> Result<u128, ApiError> {
    match verify_outcome(token, secret, now) {
        Err(_) => Err(ApiError::InvalidRefreshToken),
        Ok(c) => match parsed_id(c.0) {
            None => Err(ApiError::InvalidUserId),
            Some(u) => Ok(u),
        },
    }
}

/// Refresh, first step: the token's signature, expiry and subject.
pub fn refresh_check_token(token: &str, secret: &[u8], now: u64) -> (r: Result<u128, ApiError>)
    ensures
        r == refresh_token_user(token@, secret@, now),
{
    match verify_jwt(token, secret, now) {
        Err(_) => Err(ApiError::InvalidRefreshToken),
        Ok(c) => match parse_id(c.sub.as_str()) {
            None => Err(ApiError::InvalidUserId),
            Some(u) => Ok(u),
        },
    }
}

/// A presented refresh token is accepted only when it is exactly the one stored.
pub open spec fn session_accepts(stored: Option<Seq<char>>, presented: Seq<char>) -> bool {
    stored == Some(presented)
}

/// Whether the cached refresh token for a user matches the presented one.
pub fn verify_refresh_token(stored: &Option<String>, presented: &str) -> (r: bool)
    ensures
        r == session_accepts(
            match stored {
                Some(s) => Some(s@),
                None => None,
            },
            presented@,
        ),
{
    match stored {
        Some(s) => *s == String::from_str(presented),
        None => false,
    }
}

/// Refresh, second step: the cache must hold exactly the presented token; an
/// unreachable cache refuses the request rather than trusting the token alone.
pub fn refresh_check_stored(stored: &Result<Option<String>, BackendFailure>, presented: &str) -> (r: Result<(), ApiError>)
    ensures
        r == match stored {
            Err(_) => Err(ApiError::Downstream(Backend::Cache)),
            Ok(s) => if session_accepts(
                match s {
                    Some(t) => Some(t@),
                    None => None,
                },
                presented@,
            ) {
                Ok(())
            } else {
                Err(ApiError::InvalidRefreshToken)
            },
        },
{
    match stored {
        Err(_) => Err(ApiError::Downstream(Backend::Cache)),
        Ok(s) => if verify_refresh_token(s, presented) {
            Ok(())
        } else {
            Err(ApiError::InvalidRefreshToken)
        },
    }
}

/// Refresh, third step: the user must still exist.
pub fn refresh_check_user(found: Result<Option<UserRecord>, BackendFailure>) -> (r: Result<UserRecord, ApiError>)
    ensures
        r == match found {
            Err(_) => Err(ApiError::Downstream(Backend::Database)),
            Ok(None) => Err(ApiError::UserNotFound),
            Ok(Some(u)) => Ok::<UserRecord, ApiError>(u),
        },
{
    match found {
        Err(_) => Err(ApiError::Downstream(Backend::Database)),
        Ok(None) => Err(ApiError::UserNotFound),
        Ok(Some(u)) => Ok(u),
    }
}

/// The id of the user an accepted access token speaks for; a subject that is
/// not an id is a malformed identifier.
pub fn caller_id(claims: &Claims) -> (r: Result<u128, ApiError>)
    ensures
        r == match parsed_id(claims.sub@) {
            None => Err(ApiError::InvalidUserId),
            Some(u) => Ok::<u128, ApiError>(u),
        },
{
    match parse_id(claims.sub.as_str()) {
        None => Err(ApiError::InvalidUserId),
        Some(u) => Ok(u),
    }
}

/// Logout: the cache entry to delete for the caller.
pub fn logout(claims: &Claims) -> (r: Result<String, ApiError>)
    ensures
        match r {
            Ok(key) => exists|u: u128|
                parsed_id(claims.sub@) == Some(u) && key@ == "refresh_token:"@ + id_text(u),
            Err(e) => parsed_id(claims.sub@) is None && e == ApiError::InvalidUserId,
        },
{
    match caller_id(claims) {
        Ok(u) => Ok(refresh_token_key(u)),
        Err(e) => Err(e),
    }
}

/// Logout, once the cache entry has been deleted.
pub fn logout_finish(deleted: Result<(), BackendFailure>) -> (r: Result<(), ApiError>)
    ensures
        r == match deleted {
            Err(_) => Err(ApiError::Downstream(Backend::Cache)),
            Ok(()) => Ok::<(), ApiError>(()),
        },
{
    match deleted {
        Err(_) => Err(ApiError::Downstream(Backend::Cache)),
        Ok(()) => Ok(()),
    }
}

/// The current user's public view: a subject that is not an id is refused
/// (and no lookup is needed); otherwise the user found by that id, if any.
pub fn me(claims: &Claims, found: Result<Option<UserRecord>, BackendFailure>) -> (r: Result<UserResponse, ApiError>)
    ensures
        parsed_id(claims.sub@) is None ==> r == Err::<UserResponse, ApiError>(ApiError::InvalidUserId),
        parsed_id(claims.sub@) is Some ==> (r is Ok <==> found matches Ok(Some(_))),
        parsed_id(claims.sub@) is Some ==> match r {
            Ok(v) => found matches Ok(Some(u)) && v.id == u.id && v.email == u.email,
            Err(e) => e == match found {
                Err(_) => ApiError::Downstream(Backend::Database),
                Ok(_) => ApiError::UserNotFound,
            },
        },
{
    if caller_id(claims).is_err() {
        return Err(ApiError::InvalidUserId);
    }
    match found {
        Err(_) => Err(ApiError::Downstream(Backend::Database)),
        Ok(None) => Err(ApiError::UserNotFound),
        Ok(Some(u)) => Ok(UserResponse { id: u.id, email: u.email }),
    }
}

/// Bearer authentication of a request: the access token's claims, or `InvalidToken`.
pub fn validator(token: &str, secret: &[u8], now: u64) -> (r: Result<Claims, ApiError>)
    ensures
        match r {
            Ok(c) => verify_outcome(token@, secret@, now) == Ok::<ClaimsView, TokenError>(c@),
            Err(e) => verify_outcome(token@, secret@, now) is Err && e == ApiError::InvalidToken,
        },
{
    match verify_jwt(token, secret, now) {
        Ok(c) => Ok(c),
        Err(_) => Err(ApiError::InvalidToken),
    }
}

/// The refresh token the cache holds for a user.
pub open spec fn cache_entry(cache: Map<u128, Seq<char>>, user: u128) -> Option<Seq<char>> {
    if cache.contains_key(user) {
        Some(cache[user])
    } else {
        None
    }
}

/// What the token and cache checks of a refresh make of a token, against a cache
/// that answers from `cache`.
pub open spec fn refresh_outcome(cache: Map<u128, Seq<char>>, token: Seq<char>, secret: Seq<u8>, now: u64) -> Result<u128, ApiError> {
    match refresh_token_user(token, secret, now) {
        Err(e) => Err(e),
        Ok(u) => if session_accepts(cache_entry(cache, u), token) {
            Ok(u)
        } else {
            Err(ApiError::InvalidRefreshToken)
        },
    }
}

/// Registering an email that is not taken goes on; once its user exists,
/// registering the same email again is a conflict.
pub proof fn lemma_register_same_email_twice(emails: Set<Seq<char>>, email: Seq<char>)
    requires
        !emails.contains(email),
    ensures
        register_gate(emails.contains(email)) == Ok::<(), ApiError>(()),
        register_gate(emails.insert(email).contains(email)) == Err::<(), ApiError>(ApiError::UserExists),
{
}

/// A known email with a wrong password gets the very answer an unknown email gets.
pub proof fn lemma_wrong_password_like_unknown_email(user: UserRecord, password: Seq<char>)
    requires
        password_verdict(password, user.password_hash@) == Some(false),
    ensures
        login_outcome(Ok(Some(user)), password) == login_outcome(Ok(None), password),
        login_outcome(Ok(None), password) == Err::<UserRecord, ApiError>(ApiError::InvalidCredentials),
{
}

/// Once a new session for a user is stored, the refresh token it replaced is
/// refused at any later time: a refresh stores tokens minted with the presented
/// token as `previous`, a login or registration with the cached one.
pub proof fn lemma_new_session_revokes_old(
    cache: Map<u128, Seq<char>>,
    old: Seq<char>,
    fresh: Seq<char>,
    secret: Seq<u8>,
    now: u64,
    later: u64,
    user: u128,
    fresh_claims: ClaimsView,
)
    requires
        refresh_token_user(old, secret, now) == Ok::<u128, ApiError>(user),
        token_claims(fresh, secret) == Some(fresh_claims),
        fresh_claims.3 == next_generation(Some(old), secret),
    ensures
        fresh != old,
        refresh_outcome(cache.insert(user, fresh), old, secret, later) == Err::<u128, ApiError>(
            ApiError::InvalidRefreshToken,
        ),
{
}

/// After a successful refresh with `old`, whose new session was minted with
/// `old` as the token it replaces and stored under the user, presenting `old`
/// again is refused at any later time, even within the same second.
pub proof fn lemma_refresh_rejects_previous_token(
    cache: Map<u128, Seq<char>>,
    old: Seq<char>,
    fresh: Seq<char>,
    secret: Seq<u8>,
    now: u64,
    later: u64,
    user: u128,
    fresh_claims: ClaimsView,
)
    requires
        refresh_outcome(cache, old, secret, now) == Ok::<u128, ApiError>(user),
        token_claims(fresh, secret) == Some(fresh_claims),
        fresh_claims.3 == next_generation(Some(old), secret),
    ensures
        fresh != old,
        refresh_outcome(cache.insert(user, fresh), old, secret, later) == Err::<u128, ApiError>(
            ApiError::InvalidRefreshToken,
        ),
{
    lemma_new_session_revokes_old(cache, old, fresh, secret, now, later, user, fresh_claims);
}

/// A refresh token just issued for a user and stored under that user is
/// accepted by a refresh at any time up to its expiry.
pub proof fn lemma_issued_refresh_accepted(
    cache: Map<u128, Seq<char>>,
    token: Seq<char>,
    secret: Seq<u8>,
    user: u128,
    email: Seq<char>,
    issued_at: u64,
    at: u64,
    generation: u64,
)
    requires
        parsed_id(id_text(user)) == Some(user),
        issued_at + REFRESH_TOKEN_EXPIRY_SECS <= u64::MAX,
        token_claims(token, secret) == Some(
            (id_text(user), email, (issued_at + REFRESH_TOKEN_EXPIRY_SECS) as u64, generation),
        ),
        at <= issued_at + REFRESH_TOKEN_EXPIRY_SECS,
    ensures
        refresh_outcome(cache.insert(user, token), token, secret, at) == Ok::<u128, ApiError>(user),
{
}

/// A password that verifies against the stored hash logs the user in.
pub proof fn lemma_matching_password_logs_in(user: UserRecord, password: Seq<char>)
    requires
        password_verdict(password, user.password_hash@) == Some(true),
    ensures
        login_outcome(Ok(Some(user)), password) == Ok::<UserRecord, ApiError>(user),
{
}

/// After logout deletes a user's cache entry, a refresh with any token for that
/// user is refused, however valid its signature and expiry.
pub proof fn lemma_logout_ends_refresh(
    cache: Map<u128, Seq<char>>,
    token: Seq<char>,
    secret: Seq<u8>,
    now: u64,
    user: u128,
)
    requires
        refresh_token_user(token, secret, now) == Ok::<u128, ApiError>(user),
    ensures
        refresh_outcome(cache.remove(user), token, secret, now) == Err::<u128, ApiError>(
            ApiError::InvalidRefreshToken,
        ),
{
}

} // verus!
