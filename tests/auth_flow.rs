use std::collections::HashMap;

use memos_backend::auth::{
    caller_id, finish_session, hash_password, issue_session, login_check_credentials, logout,
    logout_finish, me, refresh_check_stored, refresh_check_token, refresh_check_user,
    register_check_existing, validator, verify_refresh_token, AuthResponse, UserRecord,
};
use memos_backend::errors::{ApiError, Backend, BackendFailure};
use memos_backend::ids::{id_to_string, refresh_token_key};
use memos_backend::tokens::{
    create_access_token, create_refresh_token, get_jwt_secret, verify_jwt, TokenError,
    ACCESS_TOKEN_EXPIRY_SECS, DEFAULT_JWT_SECRET, REFRESH_TOKEN_EXPIRY_SECS,
};

const SECRET: &[u8] = b"test-signing-secret";
const T0: u64 = 1_700_000_000;

/// A stand-in for the database and the cache, driving the library's steps the
/// way the server does.
struct World {
    users: HashMap<String, UserRecord>,
    cache: HashMap<u128, String>,
    next_id: u128,
}

impl World {
    fn new() -> World {
        World { users: HashMap::new(), cache: HashMap::new(), next_id: 0x11112222333344445555666677778888 }
    }

    fn user_by_id(&self, id: u128) -> Option<UserRecord> {
        self.users.values().find(|u| u.id == id).cloned()
    }

    fn register(&mut self, email: &str, password: &str, now: u64) -> Result<AuthResponse, ApiError> {
        let found: Result<Option<UserRecord>, BackendFailure> = Ok(self.users.get(email).cloned());
        register_check_existing(&found)?;
        let hash = hash_password(password, 4)?;
        let user = UserRecord { id: self.next_id, email: email.to_string(), password_hash: hash };
        self.next_id += 1;
        self.users.insert(email.to_string(), user.clone());
        let previous = Ok(self.cache.get(&user.id).cloned());
        let session = issue_session(user.id, &user.email, now, SECRET, &previous)?;
        self.cache.insert(user.id, session.refresh_token.clone());
        finish_session(Ok(()), session, user)
    }

    fn login(&mut self, email: &str, password: &str, now: u64) -> Result<AuthResponse, ApiError> {
        let found: Result<Option<UserRecord>, BackendFailure> = Ok(self.users.get(email).cloned());
        let user = login_check_credentials(found, password)?;
        let previous = Ok(self.cache.get(&user.id).cloned());
        let session = issue_session(user.id, &user.email, now, SECRET, &previous)?;
        self.cache.insert(user.id, session.refresh_token.clone());
        finish_session(Ok(()), session, user)
    }

    fn refresh(&mut self, token: &str, now: u64) -> Result<AuthResponse, ApiError> {
        let user_id = refresh_check_token(token, SECRET, now)?;
        let stored: Result<Option<String>, BackendFailure> = Ok(self.cache.get(&user_id).cloned());
        refresh_check_stored(&stored, token)?;
        let user = refresh_check_user(Ok(self.user_by_id(user_id)))?;
        let session = issue_session(user.id, &user.email, now, SECRET, &Ok(Some(token.to_string())))?;
        self.cache.insert(user.id, session.refresh_token.clone());
        finish_session(Ok(()), session, user)
    }

    fn logout(&mut self, access_token: &str, now: u64) -> Result<(), ApiError> {
        let claims = validator(access_token, SECRET, now)?;
        let key = logout(&claims)?;
        let user_id = caller_id(&claims)?;
        assert_eq!(key, refresh_token_key(user_id));
        self.cache.remove(&user_id);
        logout_finish(Ok(()))
    }
}

#[test]
fn register_same_email_twice_conflicts() {
    let mut w = World::new();
    let first = w.register("a@x.com", "pw", T0).unwrap();
    assert_eq!(first.user.email, "a@x.com");
    assert_eq!(first.token_type, "Bearer");
    assert_eq!(first.expires_in, 3600);
    let second = w.register("a@x.com", "other", T0 + 5);
    assert_eq!(second.unwrap_err(), ApiError::UserExists);
    assert_eq!(ApiError::UserExists.status(), 409);
}

#[test]
fn wrong_password_and_unknown_email_look_alike() {
    let mut w = World::new();
    w.register("a@x.com", "pw", T0).unwrap();
    let wrong = w.login("a@x.com", "not-pw", T0).unwrap_err();
    let unknown = w.login("nobody@x.com", "pw", T0).unwrap_err();
    assert_eq!(wrong, ApiError::InvalidCredentials);
    assert_eq!(wrong, unknown);
    assert_eq!(wrong.message(), unknown.message());
    assert_eq!(wrong.status(), 401);
}

#[test]
fn access_token_expires_after_one_hour() {
    let id: u128 = 0x0123456789abcdef0123456789abcdef;
    let token = create_access_token(id, "a@x.com", T0, 0, SECRET).unwrap();
    let claims = verify_jwt(&token, SECRET, T0 + 59 * 60).unwrap();
    assert_eq!(claims.sub, "01234567-89ab-cdef-0123-456789abcdef");
    assert_eq!(claims.email, "a@x.com");
    assert_eq!(claims.exp, T0 + ACCESS_TOKEN_EXPIRY_SECS);
    assert_eq!(verify_jwt(&token, SECRET, T0 + 3600).unwrap().exp, T0 + 3600);
    assert_eq!(verify_jwt(&token, SECRET, T0 + 61 * 60).unwrap_err(), TokenError::Expired);
}

#[test]
fn refresh_token_lives_thirty_days() {
    let token = create_refresh_token(7, "b@x.com", T0, 0, SECRET).unwrap();
    let claims = verify_jwt(&token, SECRET, T0).unwrap();
    assert_eq!(claims.exp, T0 + 2_592_000);
    assert_eq!(REFRESH_TOKEN_EXPIRY_SECS, 30 * 24 * 3600);
    assert_eq!(verify_jwt(&token, SECRET, T0 + 2_592_001).unwrap_err(), TokenError::Expired);
}

#[test]
fn token_under_another_secret_is_refused() {
    let token = create_access_token(7, "b@x.com", T0, 0, SECRET).unwrap();
    assert_eq!(verify_jwt(&token, b"another-secret", T0).unwrap_err(), TokenError::InvalidSignature);
    assert_eq!(verify_jwt("not.a.token", SECRET, T0).unwrap_err(), TokenError::InvalidSignature);
    assert_eq!(validator("garbage", SECRET, T0).unwrap_err(), ApiError::InvalidToken);
}

#[test]
fn refresh_rotates_the_stored_token() {
    let mut w = World::new();
    let login = w.register("a@x.com", "pw", T0).unwrap();
    let renewed = w.refresh(&login.refresh_token, T0).unwrap();
    assert_ne!(renewed.refresh_token, login.refresh_token);
    assert_eq!(w.refresh(&login.refresh_token, T0).unwrap_err(), ApiError::InvalidRefreshToken);
    assert!(w.refresh(&renewed.refresh_token, T0).is_ok());
}

#[test]
fn logout_ends_refresh() {
    let mut w = World::new();
    let login = w.register("a@x.com", "pw", T0).unwrap();
    w.logout(&login.access_token, T0).unwrap();
    let after = w.refresh(&login.refresh_token, T0).unwrap_err();
    assert_eq!(after, ApiError::InvalidRefreshToken);
    assert_eq!(after.status(), 401);
}

#[test]
fn register_login_refresh_scenario() {
    let mut w = World::new();
    let registered = w.register("a@x.com", "pw", T0).unwrap();
    let login = w.login("a@x.com", "pw", T0).unwrap();
    assert!(!login.access_token.is_empty());
    assert_ne!(login.refresh_token, registered.refresh_token);
    assert_eq!(w.refresh(&registered.refresh_token, T0).unwrap_err(), ApiError::InvalidRefreshToken);
    let old_refresh = login.refresh_token.clone();
    let renewed = w.refresh(&old_refresh, T0).unwrap();
    assert_eq!(renewed.user.email, "a@x.com");
    let again = w.refresh(&old_refresh, T0).unwrap_err();
    assert_eq!(again.status(), 401);
}

#[test]
fn refresh_with_expired_token_is_refused() {
    let mut w = World::new();
    let login = w.register("a@x.com", "pw", T0).unwrap();
    let late = T0 + REFRESH_TOKEN_EXPIRY_SECS + 1;
    assert_eq!(w.refresh(&login.refresh_token, late).unwrap_err(), ApiError::InvalidRefreshToken);
}

fn signed_with_subject(sub: &str) -> String {
    let mut claims = serde_json::Map::new();
    claims.insert("sub".to_string(), serde_json::Value::from(sub));
    claims.insert("email".to_string(), serde_json::Value::from("a@x.com"));
    claims.insert("exp".to_string(), serde_json::Value::from(T0 + 100));
    claims.insert("gen".to_string(), serde_json::Value::from(0u64));
    let key = jsonwebtoken::EncodingKey::from_secret(SECRET);
    jsonwebtoken::encode(&jsonwebtoken::Header::default(), &claims, &key).unwrap()
}

#[test]
fn token_with_bad_subject_is_bad_request() {
    let mut w = World::new();
    w.register("a@x.com", "pw", T0).unwrap();
    let bad = signed_with_subject("not-a-uuid");
    assert_eq!(verify_jwt(&bad, SECRET, T0).unwrap().sub, "not-a-uuid");
    let refused = w.refresh(&bad, T0).unwrap_err();
    assert_eq!(refused, ApiError::InvalidUserId);
    assert_eq!(refused.status(), 400);
    assert_eq!(refused.message(), "Invalid user ID");
    let claims = validator(&bad, SECRET, T0).unwrap();
    assert_eq!(caller_id(&claims).unwrap_err(), ApiError::InvalidUserId);
    assert_eq!(logout(&claims).unwrap_err().status(), 400);
    let user = UserRecord { id: 9, email: "c@x.com".to_string(), password_hash: String::new() };
    assert_eq!(me(&claims, Ok(Some(user))).unwrap_err(), ApiError::InvalidUserId);
    let good = validator(&create_access_token(1, "a@x.com", T0, 0, SECRET).unwrap(), SECRET, T0).unwrap();
    assert_eq!(caller_id(&good).unwrap(), 1);
    assert!(w.refresh("", T0).is_err());
}

#[test]
fn login_replaces_the_registration_session_in_the_same_second() {
    let mut w = World::new();
    let registered = w.register("a@x.com", "pw", T0).unwrap();
    let first = w.login("a@x.com", "pw", T0).unwrap();
    let second = w.login("a@x.com", "pw", T0).unwrap();
    assert_ne!(first.refresh_token, registered.refresh_token);
    assert_ne!(second.refresh_token, first.refresh_token);
    assert_eq!(w.refresh(&first.refresh_token, T0).unwrap_err(), ApiError::InvalidRefreshToken);
    assert!(w.refresh(&second.refresh_token, T0).is_ok());
}

#[test]
fn issuing_needs_a_readable_cache() {
    let failed: Result<Option<String>, BackendFailure> = Err(BackendFailure);
    assert_eq!(issue_session(1, "a@x.com", T0, SECRET, &failed).unwrap_err(), ApiError::Downstream(Backend::Cache));
    let unreadable: Result<Option<String>, BackendFailure> = Ok(Some("junk".to_string()));
    let s = issue_session(1, "a@x.com", T0, SECRET, &unreadable).unwrap();
    assert_eq!(verify_jwt(&s.refresh_token, SECRET, T0).unwrap().generation, 0);
    let next = issue_session(1, "a@x.com", T0, SECRET, &Ok(Some(s.refresh_token.clone()))).unwrap();
    assert_eq!(verify_jwt(&next.refresh_token, SECRET, T0).unwrap().generation, 1);
}

#[test]
fn cache_failures_fail_closed() {
    let failed: Result<Option<String>, BackendFailure> = Err(BackendFailure);
    assert_eq!(refresh_check_stored(&failed, "t").unwrap_err(), ApiError::Downstream(Backend::Cache));
    let empty: Result<Option<String>, BackendFailure> = Ok(None);
    assert_eq!(refresh_check_stored(&empty, "t").unwrap_err(), ApiError::InvalidRefreshToken);
    let other: Result<Option<String>, BackendFailure> = Ok(Some("u".to_string()));
    assert_eq!(refresh_check_stored(&other, "t").unwrap_err(), ApiError::InvalidRefreshToken);
    let same: Result<Option<String>, BackendFailure> = Ok(Some("t".to_string()));
    assert!(refresh_check_stored(&same, "t").is_ok());
    assert!(verify_refresh_token(&Some("t".to_string()), "t"));
    assert!(!verify_refresh_token(&None, "t"));
    assert_eq!(logout_finish(Err(BackendFailure)).unwrap_err().status(), 500);
}

#[test]
fn downstream_failures_are_internal() {
    let lookup: Result<Option<UserRecord>, BackendFailure> = Err(BackendFailure);
    assert_eq!(register_check_existing(&lookup).unwrap_err(), ApiError::Downstream(Backend::Database));
    assert_eq!(login_check_credentials(Err(BackendFailure), "pw").unwrap_err().status(), 500);
    let broken = UserRecord { id: 1, email: "a@x.com".to_string(), password_hash: "not-a-hash".to_string() };
    assert_eq!(
        login_check_credentials(Ok(Some(broken)), "pw").unwrap_err(),
        ApiError::Downstream(Backend::PasswordCheck)
    );
    assert_eq!(refresh_check_user(Ok(None)).unwrap_err(), ApiError::UserNotFound);
    let session = issue_session(1, "a@x.com", T0, SECRET, &Ok(None)).unwrap();
    let user = UserRecord { id: 1, email: "a@x.com".to_string(), password_hash: String::new() };
    let failed = finish_session(Err(BackendFailure), session, user).unwrap_err();
    assert_eq!(failed, ApiError::Downstream(Backend::Cache));
    assert_eq!(failed.message(), "Redis error");
}

#[test]
fn issued_session_targets_the_users_cache_entry() {
    let id: u128 = 0x0123456789abcdef0123456789abcdef;
    let session = issue_session(id, "a@x.com", T0, SECRET, &Ok(None)).unwrap();
    assert_eq!(session.cache_key, "refresh_token:01234567-89ab-cdef-0123-456789abcdef");
    assert_eq!(session.ttl_secs, 2_592_000);
    assert_eq!(verify_jwt(&session.access_token, SECRET, T0).unwrap().exp, T0 + 3600);
    assert_eq!(verify_jwt(&session.refresh_token, SECRET, T0).unwrap().exp, T0 + 2_592_000);
    assert_eq!(id_to_string(id), "01234567-89ab-cdef-0123-456789abcdef");
}

#[test]
fn me_reports_the_user_or_unauthorized() {
    let user = UserRecord { id: 9, email: "c@x.com".to_string(), password_hash: String::new() };
    let claims = validator(&create_access_token(9, "c@x.com", T0, 0, SECRET).unwrap(), SECRET, T0).unwrap();
    let view = me(&claims, Ok(Some(user))).unwrap();
    assert_eq!(view.id, 9);
    assert_eq!(view.email, "c@x.com");
    assert_eq!(me(&claims, Ok(None)).unwrap_err(), ApiError::UserNotFound);
    assert_eq!(me(&claims, Err(BackendFailure)).unwrap_err(), ApiError::Downstream(Backend::Database));
}

#[test]
fn secret_falls_back_to_the_default() {
    assert_eq!(get_jwt_secret(None), DEFAULT_JWT_SECRET);
    assert_eq!(get_jwt_secret(Some("s3".to_string())), "s3");
}
