use openpasswd::auth::auth_error::AuthError;
use openpasswd::auth::claims::Claims;
use openpasswd::auth::refresh_token::RefreshTokenClaims;
use openpasswd::auth::service::{AuthConfig, AuthService};
use openpasswd::cache::{MemoryCache, RevocationStore};
use openpasswd::hasher::verify;
use openpasswd::mail_service::MessageBody;
use openpasswd::model::auth::{
    LoginRequest, PasswordRecoveryFinish, PasswordRecoveryStart, RefreshTokenType, UserRegister,
};
use openpasswd::repository::memory::MemoryRepository;
use openpasswd::repository::models::device::NewDevice;
use openpasswd::repository::repositories::users_repository::UsersRepository;

const SALT: &[u8] = b"0123456789ab";
const KEY: &str = "3637646363613636323734353463666638316363383131653261346131376239";
const NOW: i64 = 1_700_000_000;

fn service() -> AuthService<MemoryRepository, MemoryCache> {
    let config = AuthConfig::new("access-secret".to_string(), "refresh-secret".to_string());
    AuthService::new(MemoryRepository::new(), MemoryCache::new(), config)
}

fn alice() -> UserRegister {
    UserRegister {
        name: "Alice".to_string(),
        email: "alice@example.com".to_string(),
        password: "pw1".to_string(),
    }
}

fn with_alice() -> AuthService<MemoryRepository, MemoryCache> {
    let mut auth = service();
    auth.register_with(alice(), SALT, KEY.to_string()).unwrap();
    auth
}

fn login_request(password: &str, kind: Option<RefreshTokenType>) -> LoginRequest {
    LoginRequest {
        email: "alice@example.com".to_string(),
        password: password.to_string(),
        device_name: Some("laptop".to_string()),
        refresh_token: kind,
    }
}

#[test]
fn config_has_the_default_lifetimes() {
    let config = AuthConfig::new("a".to_string(), "r".to_string());
    assert_eq!(config.access_secret, "a");
    assert_eq!(config.refresh_secret, "r");
    assert_eq!(config.access_ttl, 60);
    assert_eq!(config.refresh_ttl, 300);
    assert_eq!(config.recovery_window, 300);
}

#[test]
fn register_stores_a_hash_and_key_material() {
    let mut auth = service();
    assert_eq!(auth.register(alice()), Ok(()));
    assert_eq!(auth.repository.users.len(), 1);
    let row = &auth.repository.users[0];
    assert_eq!(row.id, 1);
    assert_eq!(row.name, "Alice");
    assert_eq!(row.email, "alice@example.com");
    assert_ne!(row.password, "pw1");
    assert_eq!(verify(&row.password, "pw1"), Ok(true));
    assert_eq!(verify(&row.password, "pw1x"), Ok(false));
    let key = row.master_key.clone().unwrap();
    assert_eq!(key.len(), 64);
    assert!(key.chars().all(|c| c.is_ascii_digit() || ('a'..='f').contains(&c)));
    assert_eq!(openpasswd::hex::from_hex(&key).unwrap().len(), 32);
    assert_eq!(row.last_login, None);
    assert_eq!(row.fail_attempts, 0);
    assert_eq!(row.last_attempt, None);
}

#[test]
fn register_with_stores_exactly_what_it_is_given() {
    let auth = with_alice();
    let row = &auth.repository.users[0];
    assert_eq!(row.master_key, Some(KEY.to_string()));
    assert!(row.password.starts_with("$argon2id$v=19$m=19456,t=2,p=1$MDEyMzQ1Njc4OWFi$"));
}

#[test]
fn register_refuses_a_taken_address_and_changes_nothing() {
    let mut auth = with_alice();
    let before = format!("{:?}", auth.repository.users);
    let again = UserRegister {
        name: "Mallory".to_string(),
        email: "alice@example.com".to_string(),
        password: "other".to_string(),
    };
    assert_eq!(auth.register(again), Err(AuthError::EmailAlreadyTaken));
    assert_eq!(format!("{:?}", auth.repository.users), before);
    let other_case = UserRegister {
        name: "Alice".to_string(),
        email: "Alice@example.com".to_string(),
        password: "pw".to_string(),
    };
    assert_eq!(auth.register(other_case), Ok(()));
    assert_eq!(auth.repository.users.len(), 2);
    assert_eq!(auth.repository.users[1].id, 2);
}

#[test]
fn register_with_a_short_salt_is_a_hash_error() {
    let mut auth = service();
    assert_eq!(auth.register_with(alice(), b"short", KEY.to_string()), Err(AuthError::HashFormat));
    assert!(auth.repository.users.is_empty());
}

#[test]
fn login_of_an_unknown_address_is_refused() {
    let mut auth = service();
    let r = auth.login(&login_request("pw1", None));
    assert_eq!(r.err(), Some(AuthError::InvalidCredentials));
    assert_eq!(auth.cache.len(), 0);
}

#[test]
fn login_with_a_wrong_password_is_counted() {
    let mut auth = with_alice();
    let r = auth.login_at(&login_request("wrong", None), NOW, "a".to_string(), "b".to_string());
    assert_eq!(r.err(), Some(AuthError::InvalidCredentials));
    assert_eq!(auth.repository.users[0].fail_attempts, 1);
    assert_eq!(auth.repository.users[0].last_attempt, Some(NOW));
    assert_eq!(auth.repository.users[0].last_login, None);
    let r = auth.login_at(&login_request("wrong", None), NOW + 1, "a".to_string(), "b".to_string());
    assert_eq!(r.err(), Some(AuthError::InvalidCredentials));
    assert_eq!(auth.repository.users[0].fail_attempts, 2);
    assert_eq!(auth.repository.users[0].last_attempt, Some(NOW + 1));
    assert_eq!(auth.cache.len(), 0);
}

#[test]
fn failed_attempts_stop_at_the_largest_count() {
    let mut auth = with_alice();
    auth.repository.users[0].fail_attempts = i16::MAX;
    let r = auth.login_at(&login_request("wrong", None), NOW, "a".to_string(), "b".to_string());
    assert_eq!(r.err(), Some(AuthError::InvalidCredentials));
    assert_eq!(auth.repository.users[0].fail_attempts, i16::MAX);
}

#[test]
fn login_with_a_broken_stored_hash_is_a_hash_error() {
    let mut auth = with_alice();
    auth.repository.users[0].password = "not a hash".to_string();
    let r = auth.login_at(&login_request("pw1", None), NOW, "a".to_string(), "b".to_string());
    assert_eq!(r.err(), Some(AuthError::HashFormat));
    assert_eq!(auth.repository.users[0].fail_attempts, 0);
}

#[test]
fn login_issues_a_bearer_token_and_records_it() {
    let mut auth = with_alice();
    let token = auth
        .login_at(&login_request("pw1", None), NOW, "jti-a".to_string(), "jti-r".to_string())
        .unwrap();
    assert_eq!(token.token_type, "Bearer");
    assert_eq!(token.refresh_token, None);
    assert_eq!(auth.repository.users[0].last_login, Some(NOW));
    assert_eq!(auth.repository.users[0].fail_attempts, 0);
    let claims = Claims::verify(&token.access_token, "access-secret", NOW).unwrap();
    assert_eq!(claims.jti, "jti-a");
    assert_eq!(claims.sub, 1);
    // the device is not on record for alice
    assert_eq!(claims.device, None);
    assert_eq!(claims.exp, NOW + 60);
    assert_eq!(auth.cache.len(), 1);
    assert_eq!(auth.cache.get("access_token:1:jti-a", NOW), Some(1));
    assert_eq!(auth.cache.get("access_token:1:jti-a", NOW + 59), Some(1));
    assert_eq!(auth.cache.get("access_token:1:jti-a", NOW + 60), None);
    assert_eq!(auth.cache.get("refresh_token:1:jti-r", NOW), None);
}

#[test]
fn login_names_a_known_device() {
    let mut auth = with_alice();
    auth.repository
        .devices_insert(NewDevice {
            user_id: 1,
            name: "laptop".to_string(),
            last_access: 0,
            active: true,
            public_key: String::new(),
        })
        .unwrap();
    auth.repository
        .devices_insert(NewDevice {
            user_id: 2,
            name: "phone".to_string(),
            last_access: 0,
            active: true,
            public_key: String::new(),
        })
        .unwrap();
    let token = auth
        .login_at(&login_request("pw1", None), NOW, "a".to_string(), "r".to_string())
        .unwrap();
    let claims = Claims::verify(&token.access_token, "access-secret", NOW).unwrap();
    assert_eq!(claims.device, Some("laptop".to_string()));
    let mut request = login_request("pw1", None);
    request.device_name = Some("phone".to_string());
    let token = auth.login_at(&request, NOW, "a2".to_string(), "r2".to_string()).unwrap();
    let claims = Claims::verify(&token.access_token, "access-secret", NOW).unwrap();
    assert_eq!(claims.device, None);
}

#[test]
fn login_with_refresh_issues_both_tokens() {
    let mut auth = with_alice();
    let kind = RefreshTokenType::Token;
    let token = auth
        .login_at(&login_request("pw1", Some(kind)), NOW, "a".to_string(), "r".to_string())
        .unwrap();
    let refresh = token.refresh_token.unwrap();
    let claims = RefreshTokenClaims::verify(&refresh, "refresh-secret", NOW, kind).unwrap();
    assert_eq!(claims.jti, "r");
    assert_eq!(claims.sub, 1);
    assert_eq!(claims.exp, NOW + 300);
    assert_eq!(claims.refresh_token_type, kind);
    assert_eq!(auth.cache.len(), 2);
    assert_eq!(auth.cache.get("refresh_token:1:r", NOW + 299), Some(1));
    assert_eq!(auth.cache.get("refresh_token:1:r", NOW + 300), None);
    // each kind of token is signed under its own secret
    assert!(Claims::verify(&refresh, "access-secret", NOW).is_err());
    assert!(RefreshTokenClaims::verify(&token.access_token, "refresh-secret", NOW, kind).is_err());
}

#[test]
fn login_now_gives_a_token_that_is_admitted_now() {
    let mut auth = with_alice();
    let token = auth.login(&login_request("pw1", Some(RefreshTokenType::Cookie))).unwrap();
    let claims = auth.authorize(Some(token.access_token.as_str())).unwrap();
    assert_eq!(claims.sub, 1);
    assert_eq!(claims.jti.len(), 36);
    assert!(auth.repository.users[0].last_login.is_some());
    let refresh = auth.authorize_refresh(token.refresh_token, None).unwrap();
    assert_eq!(refresh.refresh_token_type, RefreshTokenType::Cookie);
    assert_ne!(refresh.jti, claims.jti);
}

#[test]
fn authorize_needs_a_bearer_token() {
    let auth = with_alice();
    assert_eq!(auth.authorize(None).err(), Some(AuthError::MissingCredentials));
    assert_eq!(auth.authorize_at(None, NOW).err(), Some(AuthError::MissingCredentials));
    assert_eq!(auth.authorize_at(Some("junk"), NOW).err(), Some(AuthError::InvalidToken));
}

#[test]
fn authorize_needs_the_store_to_hold_the_token_as_good() {
    let mut auth = with_alice();
    let token = auth
        .login_at(&login_request("pw1", None), NOW, "a".to_string(), "r".to_string())
        .unwrap();
    let bearer = Some(token.access_token.as_str());
    assert!(auth.authorize_at(bearer, NOW).is_ok());
    assert!(auth.authorize_at(bearer, NOW + 59).is_ok());
    // expired in the store, though the signature and the claims still hold
    assert_eq!(auth.authorize_at(bearer, NOW + 60).err(), Some(AuthError::InvalidToken));
    assert_eq!(auth.authorize_at(bearer, NOW + 61).err(), Some(AuthError::InvalidToken));
    // a validly signed token that the store never saw
    let forged = Claims { jti: "x".to_string(), sub: 1, device: None, exp: NOW + 60 }
        .sign("access-secret")
        .unwrap();
    assert_eq!(auth.authorize_at(Some(forged.as_str()), NOW).err(), Some(AuthError::InvalidToken));
    // a value other than one does not count
    auth.cache.set_and_expire("access_token:1:x", 2, 60, NOW);
    assert_eq!(auth.authorize_at(Some(forged.as_str()), NOW).err(), Some(AuthError::InvalidToken));
    auth.cache.set_and_expire("access_token:1:x", 1, 60, NOW);
    assert!(auth.authorize_at(Some(forged.as_str()), NOW).is_ok());
}

#[test]
fn logout_revokes_a_token_that_is_still_validly_signed() {
    let mut auth = with_alice();
    let kind = RefreshTokenType::Token;
    let token = auth
        .login_at(&login_request("pw1", Some(kind)), NOW, "a".to_string(), "r".to_string())
        .unwrap();
    let claims = auth.authorize_at(Some(token.access_token.as_str()), NOW + 1).unwrap();
    let refresh =
        RefreshTokenClaims::verify(token.refresh_token.as_ref().unwrap(), "refresh-secret", NOW, kind)
            .unwrap();
    assert_eq!(auth.logout_at(claims.clone(), Some(refresh), NOW + 2), Ok(()));
    assert!(Claims::verify(&token.access_token, "access-secret", NOW + 3).is_ok());
    assert_eq!(
        auth.authorize_at(Some(token.access_token.as_str()), NOW + 3).err(),
        Some(AuthError::InvalidToken)
    );
    assert_eq!(
        auth.authorize_refresh_at(None, token.refresh_token.clone(), NOW + 3).err(),
        Some(AuthError::InvalidToken)
    );
    // the keys are still there, zeroed, with their expiry kept
    assert_eq!(auth.cache.get("access_token:1:a", NOW + 59), Some(0));
    assert_eq!(auth.cache.get("access_token:1:a", NOW + 60), None);
    assert_eq!(auth.cache.get("refresh_token:1:r", NOW + 299), Some(0));
    assert_eq!(auth.cache.get("refresh_token:1:r", NOW + 300), None);
    // logging out again is no error
    assert_eq!(auth.logout_at(claims.clone(), None, NOW + 4), Ok(()));
    assert_eq!(auth.logout(claims, None), Ok(()));
    assert_eq!(
        auth.authorize_at(Some(token.access_token.as_str()), NOW + 5).err(),
        Some(AuthError::InvalidToken)
    );
}

#[test]
fn logout_of_one_token_leaves_another_alone() {
    let mut auth = with_alice();
    let first = auth
        .login_at(&login_request("pw1", None), NOW, "a1".to_string(), "r1".to_string())
        .unwrap();
    let second = auth
        .login_at(&login_request("pw1", None), NOW, "a2".to_string(), "r2".to_string())
        .unwrap();
    let claims = auth.authorize_at(Some(first.access_token.as_str()), NOW).unwrap();
    auth.logout_at(claims, None, NOW).unwrap();
    assert!(auth.authorize_at(Some(first.access_token.as_str()), NOW).is_err());
    assert!(auth.authorize_at(Some(second.access_token.as_str()), NOW).is_ok());
}

#[test]
fn refresh_token_through_the_wrong_channel_is_rejected() {
    let mut auth = with_alice();
    let token = auth
        .login_at(
            &login_request("pw1", Some(RefreshTokenType::Cookie)),
            NOW,
            "a".to_string(),
            "r".to_string(),
        )
        .unwrap();
    let refresh = token.refresh_token.unwrap();
    // issued for the cookie, presented in the body
    assert_eq!(
        auth.authorize_refresh_at(None, Some(refresh.clone()), NOW).err(),
        Some(AuthError::InvalidToken)
    );
    // the rejection did not use it up
    assert_eq!(auth.cache.get("refresh_token:1:r", NOW), Some(1));
    let claims = auth.authorize_refresh_at(Some(refresh.clone()), None, NOW).unwrap();
    assert_eq!(claims.refresh_token_type, RefreshTokenType::Cookie);

    let token = auth
        .login_at(
            &login_request("pw1", Some(RefreshTokenType::Token)),
            NOW,
            "a2".to_string(),
            "r2".to_string(),
        )
        .unwrap();
    let refresh = token.refresh_token.unwrap();
    // issued for the body, presented in the cookie
    assert_eq!(
        auth.authorize_refresh_at(Some(refresh.clone()), None, NOW).err(),
        Some(AuthError::InvalidToken)
    );
    assert!(auth.authorize_refresh_at(None, Some(refresh), NOW).is_ok());
}

#[test]
fn refresh_token_is_good_once() {
    let mut auth = with_alice();
    let kind = RefreshTokenType::Token;
    let token = auth
        .login_at(&login_request("pw1", Some(kind)), NOW, "a".to_string(), "r".to_string())
        .unwrap();
    let refresh = token.refresh_token.unwrap();
    let claims = auth.authorize_refresh_at(None, Some(refresh.clone()), NOW + 10).unwrap();
    assert_eq!(auth.cache.get("refresh_token:1:r", NOW + 10), Some(0));
    assert_eq!(
        auth.authorize_refresh_at(None, Some(refresh.clone()), NOW + 11).err(),
        Some(AuthError::InvalidToken)
    );
    let next = auth
        .refresh_token_at(&claims, NOW + 10, "a2".to_string(), "r2".to_string())
        .unwrap();
    assert_eq!(next.token_type, "Bearer");
    let access = auth.authorize_at(Some(next.access_token.as_str()), NOW + 10).unwrap();
    assert_eq!((access.sub, access.jti.as_str(), access.exp), (1, "a2", NOW + 70));
    let again = auth.authorize_refresh_at(None, next.refresh_token, NOW + 10).unwrap();
    assert_eq!((again.jti.as_str(), again.exp, again.refresh_token_type), ("r2", NOW + 310, kind));
}

#[test]
fn refresh_needs_credentials_and_a_live_token() {
    let mut auth = with_alice();
    assert_eq!(
        auth.authorize_refresh_at(None, None, NOW).err(),
        Some(AuthError::MissingCredentials)
    );
    assert_eq!(auth.authorize_refresh(None, None).err(), Some(AuthError::MissingCredentials));
    assert_eq!(
        auth.authorize_refresh_at(None, Some("junk".to_string()), NOW).err(),
        Some(AuthError::InvalidToken)
    );
    let kind = RefreshTokenType::Token;
    let token = auth
        .login_at(&login_request("pw1", Some(kind)), NOW, "a".to_string(), "r".to_string())
        .unwrap();
    assert_eq!(
        auth.authorize_refresh_at(None, token.refresh_token, NOW + 300).err(),
        Some(AuthError::InvalidToken)
    );
}

#[test]
fn refresh_for_a_vanished_user_is_refused() {
    let mut auth = with_alice();
    let claims = RefreshTokenClaims {
        jti: "r".to_string(),
        sub: 99,
        device: None,
        exp: NOW + 300,
        refresh_token_type: RefreshTokenType::Token,
    };
    assert_eq!(
        auth.refresh_token_at(&claims, NOW, "a".to_string(), "r2".to_string()).err(),
        Some(AuthError::InvalidCredentials)
    );
    assert_eq!(auth.refresh_token(&claims).err(), Some(AuthError::InvalidCredentials));
    assert_eq!(auth.cache.len(), 0);
    let known = RefreshTokenClaims { sub: 1, ..claims };
    let token = auth.refresh_token(&known).unwrap();
    assert!(token.refresh_token.is_some());
    assert_eq!(auth.cache.len(), 2);
}

#[test]
fn get_token_issues_now() {
    let mut auth = with_alice();
    let user = auth.repository.users_find_by_id(1).unwrap();
    let token = auth.get_token(&user, Some("tablet".to_string()), None).unwrap();
    assert_eq!(token.token_type, "Bearer");
    assert!(token.refresh_token.is_none());
    let claims = auth.authorize(Some(token.access_token.as_str())).unwrap();
    assert_eq!(claims.device, Some("tablet".to_string()));
    let kind = RefreshTokenType::Cookie;
    let token = auth.get_token(&user, None, Some(&kind)).unwrap();
    assert!(token.refresh_token.is_some());
}

#[test]
fn get_me_shows_name_address_and_last_login() {
    let mut auth = with_alice();
    let view = auth.get_me(1).unwrap();
    assert_eq!(view.name, "Alice");
    assert_eq!(view.email, "alice@example.com");
    assert_eq!(view.last_login, None);
    auth.login_at(&login_request("pw1", None), 0, "a".to_string(), "r".to_string()).unwrap();
    assert_eq!(auth.get_me(1).unwrap().last_login, Some("1970-01-01T00:00:00+00:00".to_string()));
    auth.login_at(&login_request("pw1", None), NOW, "a".to_string(), "r".to_string()).unwrap();
    assert_eq!(auth.get_me(1).unwrap().last_login, Some("2023-11-14T22:13:20+00:00".to_string()));
    auth.repository.users[0].last_login = Some(i64::MAX);
    assert_eq!(auth.get_me(1).unwrap().last_login, None);
    assert_eq!(auth.get_me(2).err(), Some(AuthError::WrongCredentials));
}

#[test]
fn password_and_hash_helpers() {
    let auth = service();
    let hashed = AuthService::<MemoryRepository, MemoryCache>::hash_password("pw1".to_string())
        .unwrap();
    assert_eq!(auth.verify_password(&hashed, "pw1"), Ok(true));
    assert_eq!(auth.verify_password(&hashed, "pw1x"), Ok(false));
    assert_eq!(auth.verify_password("junk", "pw1"), Err(AuthError::HashFormat));
    assert_eq!(
        auth.hash(b"abc"),
        "ba7816bf8f01cfea414140de5dae2223b00361a396177a9cb410ff61f20015ad"
    );
    assert_eq!(
        auth.hash(b""),
        "e3b0c44298fc1c149afbf4c8996fb92427ae41e4649b934ca495991b7852b855"
    );
}

#[test]
fn recovery_for_an_unknown_address_is_silent() {
    let mut auth = with_alice();
    let start = PasswordRecoveryStart { email: "nobody@example.com".to_string() };
    assert!(matches!(auth.password_recovery_start(start), Ok(None)));
    assert!(auth.repository.recoveries.is_empty());
    let start = PasswordRecoveryStart { email: "nobody@example.com".to_string() };
    assert!(matches!(auth.password_recovery_start_with(start, "secret", NOW), Ok(None)));
    assert!(auth.repository.recoveries.is_empty());
    // nothing was stored, so nothing can be finished
    let before = auth.repository.users[0].password.clone();
    let finish = PasswordRecoveryFinish { token: "secret".to_string(), password: "new".to_string() };
    assert_eq!(auth.password_recovery_finish_with(finish, SALT, NOW), Ok(()));
    assert_eq!(auth.repository.users[0].password, before);
}

#[test]
fn recovery_stores_the_digest_and_mails_the_secret() {
    let mut auth = with_alice();
    let start = PasswordRecoveryStart { email: "alice@example.com".to_string() };
    let mail = auth.password_recovery_start_with(start, "abc", NOW).unwrap().unwrap();
    assert_eq!(mail.from.name, Some("OpenPasswd".to_string()));
    assert_eq!(mail.from.email, "openpasswd@gmail.com");
    assert_eq!(mail.to.name, Some("Alice".to_string()));
    assert_eq!(mail.to.email, "alice@example.com");
    assert_eq!(mail.subject, "Password recovery");
    assert!(matches!(mail.body, MessageBody::Text(t) if t == "Password recovery: abc"));
    assert_eq!(auth.repository.recoveries.len(), 1);
    let row = &auth.repository.recoveries[0];
    assert_eq!(row.user_id, 1);
    assert_eq!(row.token, "ba7816bf8f01cfea414140de5dae2223b00361a396177a9cb410ff61f20015ad");
    assert_eq!(row.issued_at, NOW);
    assert!(row.valid);
}

#[test]
fn recovery_now_mails_a_fresh_secret_of_64_letters_and_digits() {
    let mut auth = with_alice();
    let start = PasswordRecoveryStart { email: "alice@example.com".to_string() };
    let mail = auth.password_recovery_start(start).unwrap().unwrap();
    let text = match mail.body {
        MessageBody::Text(t) => t,
        MessageBody::Html(_) => panic!("the notice is plain text"),
    };
    let secret = text.strip_prefix("Password recovery: ").unwrap().to_string();
    assert_eq!(secret.len(), 64);
    assert!(secret.chars().all(|c| c.is_ascii_alphanumeric()));
    assert_eq!(auth.repository.recoveries[0].token, auth.hash(secret.as_bytes()));
    assert_ne!(auth.repository.recoveries[0].token, secret);
    let finish = PasswordRecoveryFinish { token: secret, password: "pw2".to_string() };
    assert_eq!(auth.password_recovery_finish(finish), Ok(()));
    assert_eq!(verify(&auth.repository.users[0].password, "pw2"), Ok(true));
    assert!(!auth.repository.recoveries[0].valid);
    assert!(auth.login(&login_request("pw2", None)).is_ok());
    assert_eq!(
        auth.login(&login_request("pw1", None)).err(),
        Some(AuthError::InvalidCredentials)
    );
}

#[test]
fn recovery_finishes_within_the_window_and_once() {
    let mut auth = with_alice();
    let start = PasswordRecoveryStart { email: "alice@example.com".to_string() };
    auth.password_recovery_start_with(start, "abc", NOW).unwrap();
    let finish = PasswordRecoveryFinish { token: "abc".to_string(), password: "pw2".to_string() };
    assert_eq!(auth.password_recovery_finish_with(finish, SALT, NOW + 299), Ok(()));
    assert_eq!(verify(&auth.repository.users[0].password, "pw2"), Ok(true));
    assert_eq!(verify(&auth.repository.users[0].password, "pw1"), Ok(false));
    assert!(!auth.repository.recoveries[0].valid);
    // the same secret again changes nothing
    let again = PasswordRecoveryFinish { token: "abc".to_string(), password: "pw3".to_string() };
    assert_eq!(auth.password_recovery_finish_with(again, SALT, NOW + 299), Ok(()));
    assert_eq!(verify(&auth.repository.users[0].password, "pw2"), Ok(true));
}

#[test]
fn recovery_after_six_minutes_does_not_change_the_password() {
    let mut auth = with_alice();
    let before = auth.repository.users[0].password.clone();
    let start = PasswordRecoveryStart { email: "alice@example.com".to_string() };
    auth.password_recovery_start_with(start, "abc", NOW).unwrap();
    let finish = PasswordRecoveryFinish { token: "abc".to_string(), password: "pw2".to_string() };
    assert_eq!(auth.password_recovery_finish_with(finish, SALT, NOW + 360), Ok(()));
    assert_eq!(auth.repository.users[0].password, before);
    assert!(auth.repository.recoveries[0].valid);
    // the window closes at five minutes sharp
    let finish = PasswordRecoveryFinish { token: "abc".to_string(), password: "pw2".to_string() };
    assert_eq!(auth.password_recovery_finish_with(finish, SALT, NOW + 300), Ok(()));
    assert_eq!(auth.repository.users[0].password, before);
}

#[test]
fn recovery_with_a_wrong_secret_does_not_change_the_password() {
    let mut auth = with_alice();
    let before = auth.repository.users[0].password.clone();
    let start = PasswordRecoveryStart { email: "alice@example.com".to_string() };
    auth.password_recovery_start_with(start, "abc", NOW).unwrap();
    let finish = PasswordRecoveryFinish { token: "abd".to_string(), password: "pw2".to_string() };
    assert_eq!(auth.password_recovery_finish_with(finish, SALT, NOW + 1), Ok(()));
    assert_eq!(auth.repository.users[0].password, before);
    assert!(auth.repository.recoveries[0].valid);
    // the digest itself is no secret that finishes anything
    let digest = auth.repository.recoveries[0].token.clone();
    let finish = PasswordRecoveryFinish { token: digest, password: "pw2".to_string() };
    assert_eq!(auth.password_recovery_finish_with(finish, SALT, NOW + 1), Ok(()));
    assert_eq!(auth.repository.users[0].password, before);
}

#[test]
fn recovery_with_a_short_salt_is_a_hash_error_and_keeps_the_recovery() {
    let mut auth = with_alice();
    let before = auth.repository.users[0].password.clone();
    let start = PasswordRecoveryStart { email: "alice@example.com".to_string() };
    auth.password_recovery_start_with(start, "abc", NOW).unwrap();
    let finish = PasswordRecoveryFinish { token: "abc".to_string(), password: "pw2".to_string() };
    assert_eq!(auth.password_recovery_finish_with(finish, b"short", NOW), Err(AuthError::HashFormat));
    assert_eq!(auth.repository.users[0].password, before);
    assert!(auth.repository.recoveries[0].valid);
}

#[test]
fn refused_writes_are_storage_errors() {
    let mut auth = service();
    auth.repository.users.push(openpasswd::repository::models::user::User {
        id: i32::MAX,
        name: "last".to_string(),
        email: "last@example.com".to_string(),
        password: String::new(),
        master_key: None,
        last_login: None,
        fail_attempts: 0,
        last_attempt: None,
    });
    assert_eq!(auth.register(alice()), Err(AuthError::Storage));
    assert_eq!(auth.register_with(alice(), SALT, KEY.to_string()), Err(AuthError::Storage));
    assert_eq!(auth.repository.users.len(), 1);
}

#[test]
fn refresh_admission_tells_a_missing_token_from_an_invalid_one() {
    let mut auth = with_alice();
    // nothing presented: the credentials are missing, through either entry
    assert_eq!(auth.authorize_refresh(None, None).err(), Some(AuthError::MissingCredentials));
    // something presented that is no token, or an access token: invalid, never missing
    let token = auth
        .login_at(
            &login_request("pw1", Some(RefreshTokenType::Token)),
            NOW,
            "a".to_string(),
            "r".to_string(),
        )
        .unwrap();
    for presented in ["", "junk", token.access_token.as_str()] {
        assert_eq!(
            auth.authorize_refresh(None, Some(presented.to_string())).err(),
            Some(AuthError::InvalidToken)
        );
        assert_eq!(
            auth.authorize_refresh(Some(presented.to_string()), None).err(),
            Some(AuthError::InvalidToken)
        );
    }
    // a refresh token through the other channel: invalid, and not used up
    let refresh = token.refresh_token.unwrap();
    assert_eq!(
        auth.authorize_refresh(Some(refresh.clone()), None).err(),
        Some(AuthError::InvalidToken)
    );
    assert_eq!(auth.cache.get("refresh_token:1:r", NOW), Some(1));
    // the cookie wins: a bad cookie hides a good body
    assert_eq!(
        auth.authorize_refresh_at(Some("junk".to_string()), Some(refresh.clone()), NOW).err(),
        Some(AuthError::InvalidToken)
    );
    let claims = auth.authorize_refresh_at(None, Some(refresh), NOW).unwrap();
    assert_eq!(claims.jti, "r");
}
