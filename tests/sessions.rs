use auth_sessions::config::create_redis_client;
use auth_sessions::error::AuthError;
use auth_sessions::model::{LoginUser, NewUser, TokenClaims, User, UserProfile};
use auth_sessions::session::{SessionRecord, SessionStore};
use auth_sessions::token::{check_claims, issue_token, verify_token, SESSION_TTL};

const SECRET: &str = "test-signing-secret";
const NOW: i64 = 1_700_000_000;

fn ann() -> User {
    User {
        id: 1,
        email: "a@x.com".to_string(),
        password: bcrypt::hash("longenough1", 4).unwrap(),
        name: "Ann".to_string(),
    }
}

fn ann_credentials() -> LoginUser {
    LoginUser { email: "a@x.com".to_string(), password: "longenough1".to_string() }
}

fn profile(id: i64) -> UserProfile {
    UserProfile { id, email: "b@x.com".to_string(), name: "Bob".to_string() }
}

#[test]
fn issued_token_decodes_to_its_claims() {
    let token = issue_token(7, NOW, SECRET).unwrap();
    assert_eq!(token.split('.').count(), 3);
    assert_eq!(verify_token(&token, SECRET, NOW), Ok(TokenClaims { sub: 7, exp: NOW + 3600 }));
    assert_eq!(SESSION_TTL, 3600);
}

#[test]
fn token_expires_after_its_last_second() {
    let token = issue_token(7, NOW, SECRET).unwrap();
    assert_eq!(verify_token(&token, SECRET, NOW + 3600), Ok(TokenClaims { sub: 7, exp: NOW + 3600 }));
    assert_eq!(verify_token(&token, SECRET, NOW + 3601), Err(AuthError::Expired));
}

#[test]
fn token_under_other_secret_is_invalid() {
    let token = issue_token(7, NOW, SECRET).unwrap();
    assert_eq!(verify_token(&token, "another-secret", NOW), Err(AuthError::InvalidToken));
    assert_eq!(verify_token("not.a.token", SECRET, NOW), Err(AuthError::InvalidToken));
    assert_eq!(verify_token("", SECRET, NOW), Err(AuthError::InvalidToken));
}

#[test]
fn tampered_signature_is_invalid() {
    let token = issue_token(42, NOW, SECRET).unwrap();
    let start = token.rfind('.').unwrap() + 1;
    let bytes = token.as_bytes();
    for i in start..bytes.len() {
        let mut changed = bytes.to_vec();
        changed[i] = if bytes[i] == b'A' { b'B' } else { b'A' };
        let tampered = String::from_utf8(changed).unwrap();
        assert_eq!(verify_token(&tampered, SECRET, NOW), Err(AuthError::InvalidToken), "byte {}", i);
    }
}

#[test]
fn claims_are_judged_exactly() {
    assert_eq!(check_claims(None, NOW), Err(AuthError::InvalidToken));
    assert_eq!(check_claims(Some((Some(3), None)), NOW), Err(AuthError::InvalidToken));
    assert_eq!(check_claims(Some((None, Some(NOW))), NOW), Err(AuthError::InvalidToken));
    assert_eq!(check_claims(Some((Some(3), Some(NOW))), NOW), Ok(TokenClaims { sub: 3, exp: NOW }));
    assert_eq!(check_claims(Some((Some(3), Some(NOW - 1))), NOW), Err(AuthError::Expired));
}

#[test]
fn issued_session_is_accepted() {
    let mut store = SessionStore::new();
    let resp = store.issue_session(&profile(5), 99, NOW, SECRET).unwrap();
    assert_eq!(resp.session_id, 99);
    assert_eq!(resp.user.id, 5);
    assert_eq!(resp.user.email, "b@x.com");
    assert_eq!(store.validate_request(&resp.token, SECRET, NOW), Ok(5));
    assert_eq!(store.validate_request(&resp.token, SECRET, NOW + 3599), Ok(5));
    assert_eq!(store.get_index(5, NOW), Some(99));
    let rec = store.get_session(99, NOW).unwrap();
    assert_eq!(rec.token, resp.token);
    assert_eq!(rec.user_id, 5);
    assert_eq!(rec.created_at, NOW);
    assert_eq!(rec.expires_at, NOW + 3600);
}

#[test]
fn expired_token_is_rejected_whatever_the_store_holds() {
    let mut store = SessionStore::new();
    let resp = store.issue_session(&profile(5), 99, NOW, SECRET).unwrap();
    let later = NOW + 3601;
    store.put_session(
        99,
        SessionRecord {
            user_id: 5,
            email: "b@x.com".to_string(),
            name: "Bob".to_string(),
            token: resp.token.clone(),
            created_at: NOW,
            expires_at: NOW + 100_000,
        },
    );
    store.put_index(5, 99, NOW + 100_000);
    assert_eq!(store.validate_request(&resp.token, SECRET, later), Err(AuthError::Expired));
}

#[test]
fn index_expiry_ends_the_session() {
    let mut store = SessionStore::new();
    let resp = store.issue_session(&profile(5), 99, NOW, SECRET).unwrap();
    assert_eq!(store.validate_request(&resp.token, SECRET, NOW + 3600), Err(AuthError::NoActiveSession));
    assert_eq!(store.get_index(5, NOW + 3600), None);
    assert!(store.get_session(99, NOW + 3600).is_none());
}

#[test]
fn missing_record_is_session_not_found() {
    let mut store = SessionStore::new();
    let resp = store.issue_session(&profile(5), 99, NOW, SECRET).unwrap();
    store.delete_session(99);
    assert_eq!(store.validate_request(&resp.token, SECRET, NOW), Err(AuthError::SessionNotFound));
    store.delete_index(5);
    assert_eq!(store.validate_request(&resp.token, SECRET, NOW), Err(AuthError::NoActiveSession));
}

#[test]
fn check_session_passes_claim_errors_through() {
    let store = SessionStore::new();
    assert_eq!(store.check_session(Err(AuthError::Expired), "t", NOW), Err(AuthError::Expired));
    assert_eq!(
        store.check_session(Ok(TokenClaims { sub: 1, exp: NOW + 10 }), "t", NOW),
        Err(AuthError::NoActiveSession)
    );
}

#[test]
fn second_login_supersedes_first() {
    let user = ann();
    let mut store = SessionStore::new();
    let first = store.login(&ann_credentials(), Some(&user), NOW, SECRET).unwrap();
    let second = store.login(&ann_credentials(), Some(&user), NOW + 1, SECRET).unwrap();
    assert_ne!(first.token, second.token);
    assert_eq!(store.validate_request(&first.token, SECRET, NOW + 1), Err(AuthError::StaleSession));
    assert_eq!(store.validate_request(&second.token, SECRET, NOW + 1), Ok(1));
}

#[test]
fn concurrent_logins_keep_only_the_later() {
    let user = ann();
    let mut store = SessionStore::new();
    let first = store.login(&ann_credentials(), Some(&user), NOW, SECRET).unwrap();
    assert_eq!(store.validate_request(&first.token, SECRET, NOW), Ok(1));
    let second = store.login(&ann_credentials(), Some(&user), NOW + 1, SECRET).unwrap();
    assert_eq!(store.validate_request(&second.token, SECRET, NOW + 1), Ok(1));
    let rejected = store.validate_request(&first.token, SECRET, NOW + 1).unwrap_err();
    assert!(rejected.is_unauthorized());
}

#[test]
fn logout_twice_succeeds() {
    let mut store = SessionStore::new();
    let resp = store.issue_session(&profile(5), 99, NOW, SECRET).unwrap();
    assert_eq!(store.revoke_session(5, NOW), Ok(()));
    assert_eq!(store.revoke_session(5, NOW), Ok(()));
    assert_eq!(store.get_index(5, NOW), None);
    assert!(store.get_session(99, NOW).is_none());
    assert_eq!(store.validate_request(&resp.token, SECRET, NOW), Err(AuthError::NoActiveSession));
}

#[test]
fn session_id_in_use_is_refused() {
    let mut store = SessionStore::new();
    let first = store.issue_session(&profile(5), 99, NOW, SECRET).unwrap();
    assert!(!first.token.is_empty());
    assert_eq!(store.issue_session(&profile(6), 99, NOW + 1, SECRET).unwrap_err(), AuthError::SessionIdInUse);
    assert_eq!(store.get_index(6, NOW + 1), None);
    assert_eq!(store.validate_request(&first.token, SECRET, NOW + 1), Ok(5));
}

#[test]
fn logout_without_session_succeeds() {
    let mut store = SessionStore::new();
    assert_eq!(store.revoke_session(8, NOW), Ok(()));
}

#[test]
fn register_login_validate_logout() {
    let registration = NewUser {
        email: "a@x.com".to_string(),
        password: "longenough1".to_string(),
        name: "Ann".to_string(),
    };
    assert!(registration.validate());
    let user = ann();
    assert!(bcrypt::verify("longenough1", &user.password).unwrap());
    let mut store = SessionStore::new();
    let resp = store.login(&ann_credentials(), Some(&user), NOW, SECRET).unwrap();
    assert_eq!(resp.user.id, 1);
    assert_eq!(resp.user.email, "a@x.com");
    assert_eq!(resp.user.name, "Ann");
    assert_eq!(store.get_index(1, NOW), Some(resp.session_id));
    assert_eq!(store.validate_request(&resp.token, SECRET, NOW), Ok(user.id));
    assert_eq!(store.revoke_session(user.id, NOW), Ok(()));
    let after = store.validate_request(&resp.token, SECRET, NOW);
    assert_eq!(after, Err(AuthError::NoActiveSession));
    assert!(after.unwrap_err().is_unauthorized());
}

#[test]
fn wrong_password_or_unknown_user_is_invalid_credentials() {
    let user = ann();
    let mut store = SessionStore::new();
    let wrong = LoginUser { email: "a@x.com".to_string(), password: "wrongpassword".to_string() };
    assert_eq!(store.login(&wrong, Some(&user), NOW, SECRET).unwrap_err(), AuthError::InvalidCredentials);
    assert_eq!(store.login(&ann_credentials(), None, NOW, SECRET).unwrap_err(), AuthError::InvalidCredentials);
    let broken = User { password: "not-a-bcrypt-hash".to_string(), ..ann() };
    assert_eq!(store.login(&ann_credentials(), Some(&broken), NOW, SECRET).unwrap_err(), AuthError::InvalidCredentials);
    assert_eq!(store.get_index(1, NOW), None);
}

#[test]
fn error_kinds_split_into_unauthorized_and_others() {
    assert!(AuthError::InvalidToken.is_unauthorized());
    assert!(AuthError::StaleSession.is_unauthorized());
    assert!(!AuthError::InvalidCredentials.is_unauthorized());
    assert!(!AuthError::StoreUnavailable.is_unauthorized());
    assert!(!AuthError::TokenIssue.is_unauthorized());
}

#[test]
fn redis_client_from_url() {
    assert!(create_redis_client("redis://127.0.0.1:6379/").is_ok());
    assert_eq!(create_redis_client("no url at all").err(), Some(AuthError::StoreUnavailable));
}
