//! What each operation of the authentication service comes to, as its
//! contract states it.

use vstd::prelude::*;
use vstd::string::*;
use vstd::utf8::*;

use crate::auth::auth_error::{AuthError, AuthResult};
use crate::auth::claims::{
    access_fields, access_key, signed_access_claims, valid_access_claims, ClaimsView,
};
use crate::auth::refresh_token::{
    refresh_fields, refresh_key, signed_refresh_claims, valid_refresh_claims,
    RefreshTokenClaims, RefreshTokenClaimsView,
};
use crate::auth::service::AuthConfig;
use crate::auth::token::hs512_token;
use crate::cache::{after_set_and_expire, after_set_keepttl, expiry, live_value, CacheView};
use crate::clock::rfc3339_text;
use crate::digest::sha256_hex;
use crate::hasher::{hash_result, verify_result, HashFormatError};
use crate::mail_service::{is_recovery_mail, Mail};
use crate::model::auth::{
    AccessToken, LoginRequest, PasswordRecoveryFinish, RefreshTokenType, UserRegister, UserView,
};
use crate::repository::models::device::{device_known, Device};
use crate::repository::models::user::{
    find_user_by_email, find_user_by_id, with_fail_attempts, with_last_login, with_password, User,
};
use crate::repository::models::user_password_recovery::{
    find_recovery_by_token, invalidated, UserPasswordRecovery,
};
use crate::text::opt_view;

verus! {

/// The count of failed attempts after one more: it stops at the largest
/// count there is.
pub open spec fn one_more(fail_attempts: i16) -> i16 {
    if fail_attempts < i16::MAX {
        (fail_attempts + 1) as i16
    } else {
        fail_attempts
    }
}

/// The claims of the access token issued to a user at the instant `now`.
pub open spec fn access_claims_for(
    config: AuthConfig,
    user_id: i32,
    device: Option<Seq<char>>,
    jti: Seq<char>,
    now: i64,
) -> ClaimsView {
    ClaimsView { jti, sub: user_id, device, exp: expiry(now, config.access_ttl) }
}

/// The claims of the refresh token issued to a user at the instant `now`.
pub open spec fn refresh_claims_for(
    config: AuthConfig,
    user_id: i32,
    device: Option<Seq<char>>,
    jti: Seq<char>,
    now: i64,
    kind: RefreshTokenType,
) -> RefreshTokenClaimsView {
    RefreshTokenClaimsView {
        jti,
        sub: user_id,
        device,
        exp: expiry(now, config.refresh_ttl),
        refresh_token_type: kind,
    }
}

/// Whether `token` is what the service hands to a user at the instant
/// `now`: a bearer access token with the claims owed, and a refresh token
/// exactly where one was asked for, each signed under its own secret.
pub open spec fn is_issued(
    token: AccessToken,
    config: AuthConfig,
    user_id: i32,
    device: Option<Seq<char>>,
    kind: Option<RefreshTokenType>,
    now: i64,
    access_jti: Seq<char>,
    refresh_jti: Seq<char>,
) -> bool {
    let access = access_claims_for(config, user_id, device, access_jti, now);
    &&& token.token_type@ == "Bearer"@
    &&& token.access_token@ == hs512_token(
        access_fields(access),
        encode_utf8(config.access_secret@),
    )
    &&& signed_access_claims(token.access_token@, config.access_secret@) == Some(access)
    &&& match kind {
        None => token.refresh_token is None,
        Some(k) => {
            let refresh = refresh_claims_for(config, user_id, device, refresh_jti, now, k);
            &&& token.refresh_token is Some
            &&& token.refresh_token.unwrap()@ == hs512_token(
                refresh_fields(refresh),
                encode_utf8(config.refresh_secret@),
            )
            &&& signed_refresh_claims(token.refresh_token.unwrap()@, config.refresh_secret@)
                == Some(refresh)
        },
    }
}

/// The revocation store after tokens were issued to a user at the instant
/// `now`: each token is recorded as good until it expires.
pub open spec fn cache_after_issue(
    entries: CacheView,
    config: AuthConfig,
    user_id: i32,
    kind: Option<RefreshTokenType>,
    now: i64,
    access_jti: Seq<char>,
    refresh_jti: Seq<char>,
) -> CacheView {
    let with_access = after_set_and_expire(
        entries,
        access_key(user_id, access_jti),
        1,
        config.access_ttl,
        now,
    );
    match kind {
        None => with_access,
        Some(_) => after_set_and_expire(
            with_access,
            refresh_key(user_id, refresh_jti),
            1,
            config.refresh_ttl,
            now,
        ),
    }
}

/// What issuing tokens to a user at the instant `now` comes to, and what it
/// leaves in the revocation store: it succeeds, with the tokens owed and
/// their records.
pub open spec fn issue_outcome(
    cache: CacheView,
    config: AuthConfig,
    user_id: i32,
    device: Option<Seq<char>>,
    kind: Option<RefreshTokenType>,
    now: i64,
    access_jti: Seq<char>,
    refresh_jti: Seq<char>,
    r: AuthResult<AccessToken>,
    new_cache: CacheView,
) -> bool {
    &&& r is Ok
    &&& is_issued(r.unwrap(), config, user_id, device, kind, now, access_jti, refresh_jti)
    &&& new_cache == cache_after_issue(cache, config, user_id, kind, now, access_jti, refresh_jti)
}

/// Whether the store holds the access token of these claims as good at the
/// instant `now`.
pub open spec fn access_token_live(entries: CacheView, claims: ClaimsView, now: i64) -> bool {
    live_value(entries, access_key(claims.sub, claims.jti), now) == Some(1i32)
}

/// Whether the store holds the refresh token of these claims as good at the
/// instant `now`.
pub open spec fn refresh_token_live(
    entries: CacheView,
    claims: RefreshTokenClaimsView,
    now: i64,
) -> bool {
    live_value(entries, refresh_key(claims.sub, claims.jti), now) == Some(1i32)
}

/// What a login at the instant `now` comes to, and what it leaves behind.
pub open spec fn login_outcome(
    users: Seq<User>,
    devices: Seq<Device>,
    cache: CacheView,
    config: AuthConfig,
    login: LoginRequest,
    now: i64,
    access_jti: Seq<char>,
    refresh_jti: Seq<char>,
    r: AuthResult<AccessToken>,
    new_users: Seq<User>,
    new_cache: CacheView,
) -> bool {
    match find_user_by_email(users, login.email@) {
        None => {
            &&& r == Err::<AccessToken, AuthError>(AuthError::InvalidCredentials)
            &&& new_users == users
            &&& new_cache == cache
        },
        Some(user) => match verify_result(user.password@, login.password@) {
            Err(_) => {
                &&& r == Err::<AccessToken, AuthError>(AuthError::HashFormat)
                &&& new_users == users
                &&& new_cache == cache
            },
            Ok(false) => {
                &&& r == Err::<AccessToken, AuthError>(AuthError::InvalidCredentials)
                &&& new_users == with_fail_attempts(
                    users,
                    user.id,
                    one_more(user.fail_attempts),
                    now,
                )
                &&& new_cache == cache
            },
            Ok(true) => {
                &&& new_users == with_last_login(users, user.id, now)
                &&& issue_outcome(
                    cache,
                    config,
                    user.id,
                    known_device(devices, user.id, opt_view(login.device_name)),
                    login.refresh_token,
                    now,
                    access_jti,
                    refresh_jti,
                    r,
                    new_cache,
                )
            },
        },
    }
}

/// What a refresh at the instant `now` comes to, and what it leaves in the
/// revocation store.
pub open spec fn refresh_outcome(
    users: Seq<User>,
    cache: CacheView,
    config: AuthConfig,
    claims: RefreshTokenClaimsView,
    now: i64,
    access_jti: Seq<char>,
    refresh_jti: Seq<char>,
    r: AuthResult<AccessToken>,
    new_cache: CacheView,
) -> bool {
    match find_user_by_id(users, claims.sub) {
        None => r == Err::<AccessToken, AuthError>(AuthError::InvalidCredentials) && new_cache
            == cache,
        Some(user) => issue_outcome(
            cache,
            config,
            user.id,
            claims.device,
            Some(claims.refresh_token_type),
            now,
            access_jti,
            refresh_jti,
            r,
            new_cache,
        ),
    }
}

/// The revocation store after a logout at the instant `now`: the access
/// token, and the refresh token if one came with it, are overwritten with
/// zero, their expiry kept.
pub open spec fn cache_after_logout(
    entries: CacheView,
    claims: ClaimsView,
    refresh: Option<RefreshTokenClaimsView>,
    now: i64,
) -> CacheView {
    let without_access = after_set_keepttl(entries, access_key(claims.sub, claims.jti), 0, now);
    match refresh {
        Some(rc) => after_set_keepttl(without_access, refresh_key(rc.sub, rc.jti), 0, now),
        None => without_access,
    }
}

/// Whether `row` is what registering `user` stores: the name and address
/// as given, no password but a hash that the password verifies against, the
/// key material, and no history yet.
pub open spec fn is_registered_row(
    row: User,
    user: UserRegister,
    hash: Seq<char>,
    master_key: String,
) -> bool {
    &&& row.name == user.name
    &&& row.email == user.email
    &&& row.password@ == hash
    &&& verify_result(row.password@, user.password@) == Ok::<bool, HashFormatError>(true)
    &&& row.master_key == Some(master_key)
    &&& row.last_login is None
    &&& row.fail_attempts == 0
    &&& row.last_attempt is None
}

/// What a registration under the given salt and key material comes to, and
/// what it leaves behind.
pub open spec fn register_outcome(
    users: Seq<User>,
    user: UserRegister,
    salt: Seq<u8>,
    master_key: String,
    r: Result<(), AuthError>,
    new_users: Seq<User>,
) -> bool {
    match find_user_by_email(users, user.email@) {
        Some(_) => r == Err::<(), AuthError>(AuthError::EmailAlreadyTaken) && new_users == users,
        None => match hash_result(user.password@, salt) {
            Err(_) => r == Err::<(), AuthError>(AuthError::HashFormat) && new_users == users,
            Ok(hash) => match r {
                Ok(_) => {
                    &&& new_users.len() == users.len() + 1
                    &&& new_users.drop_last() == users
                    &&& is_registered_row(new_users.last(), user, hash, master_key)
                    &&& find_user_by_id(users, new_users.last().id) is None
                },
                Err(e) => e == AuthError::Storage && new_users == users,
            },
        },
    }
}

/// Whether a recovery can still be finished at the instant `now`: it is
/// unused, and less than `window` seconds old.
pub open spec fn usable(recovery: UserPasswordRecovery, window: i64, now: i64) -> bool {
    recovery.valid && recovery.issued_at + window > now
}

/// Whether `row` is the recovery started for a user at the instant `now`
/// with the secret `token`: it holds the digest of the secret, not the
/// secret.
pub open spec fn is_recovery_row(
    row: UserPasswordRecovery,
    user_id: i32,
    token: Seq<char>,
    now: i64,
) -> bool {
    &&& row.user_id == user_id
    &&& row.token@ == sha256_hex(encode_utf8(token))
    &&& row.issued_at == now
    &&& row.valid
}

/// What starting a recovery at the instant `now` with the secret `token`
/// comes to, and what it leaves behind.
pub open spec fn recovery_start_outcome(
    users: Seq<User>,
    recoveries: Seq<UserPasswordRecovery>,
    email: Seq<char>,
    token: Seq<char>,
    now: i64,
    r: Result<Option<Mail>, AuthError>,
    new_recoveries: Seq<UserPasswordRecovery>,
) -> bool {
    match find_user_by_email(users, email) {
        None => r matches Ok(None) && new_recoveries == recoveries,
        Some(user) => match r {
            Ok(mail) => {
                &&& mail is Some
                &&& is_recovery_mail(mail.unwrap(), user.name@, user.email@, token)
                &&& new_recoveries.len() == recoveries.len() + 1
                &&& new_recoveries.drop_last() == recoveries
                &&& is_recovery_row(new_recoveries.last(), user.id, token, now)
            },
            Err(e) => e == AuthError::Storage && new_recoveries == recoveries,
        },
    }
}

/// What finishing a recovery at the instant `now` under the given salt comes
/// to, and what it leaves behind. A secret that matches no recovery, or one
/// that is used or too old, changes nothing and is no error.
pub open spec fn recovery_finish_outcome(
    users: Seq<User>,
    recoveries: Seq<UserPasswordRecovery>,
    window: i64,
    finish: PasswordRecoveryFinish,
    salt: Seq<u8>,
    now: i64,
    r: Result<(), AuthError>,
    new_users: Seq<User>,
    new_recoveries: Seq<UserPasswordRecovery>,
) -> bool {
    let digest = sha256_hex(encode_utf8(finish.token@));
    match find_recovery_by_token(recoveries, digest) {
        Some(recovery) => if usable(recovery, window, now) {
            match hash_result(finish.password@, salt) {
                Ok(hash) => {
                    &&& r is Ok
                    &&& new_recoveries == invalidated(recoveries, digest)
                    &&& verify_result(hash, finish.password@) == Ok::<bool, HashFormatError>(
                        true,
                    )
                    &&& exists|password: String|
                        password@ == hash && new_users == #[trigger] with_password(
                            users,
                            recovery.user_id,
                            password,
                        )
                },
                Err(_) => {
                    &&& r == Err::<(), AuthError>(AuthError::HashFormat)
                    &&& new_users == users
                    &&& new_recoveries == recoveries
                },
            }
        } else {
            r is Ok && new_users == users && new_recoveries == recoveries
        },
        None => r is Ok && new_users == users && new_recoveries == recoveries,
    }
}

/// The view of a user for themself.
pub open spec fn is_view_of(view: UserView, user: User) -> bool {
    &&& view.name == user.name
    &&& view.email == user.email
    &&& opt_view(view.last_login) == match user.last_login {
        Some(t) => rfc3339_text(t),
        None => None,
    }
}

/// The bearer token of a request, as contracts see it.
pub open spec fn bearer_view(bearer: Option<&str>) -> Option<Seq<char>> {
    match bearer {
        Some(token) => Some(token@),
        None => None,
    }
}

/// What presenting a bearer token at the instant `now` comes to: the token
/// must be there, be validly signed under `secret` and unexpired, and the
/// store must hold it as good.
pub open spec fn authorize_result(
    entries: CacheView,
    secret: Seq<char>,
    bearer: Option<Seq<char>>,
    now: i64,
) -> Result<ClaimsView, AuthError> {
    match bearer {
        None => Err(AuthError::MissingCredentials),
        Some(token) => match valid_access_claims(token, secret, now) {
            Some(c) => if access_token_live(entries, c, now) {
                Ok(c)
            } else {
                Err(AuthError::InvalidToken)
            },
            None => Err(AuthError::InvalidToken),
        },
    }
}

/// Whether no two users share an address.
pub open spec fn unique_addresses(users: Seq<User>) -> bool {
    forall|i: int, j: int|
        0 <= i < users.len() && 0 <= j < users.len() && i != j ==> (#[trigger] users[i]).email@
            != (#[trigger] users[j]).email@
}

/// Whether no two users share an id.
pub open spec fn unique_ids(users: Seq<User>) -> bool {
    forall|i: int, j: int|
        0 <= i < users.len() && 0 <= j < users.len() && i != j ==> (#[trigger] users[i]).id != (
        #[trigger] users[j]).id
}

/// What presenting a refresh token at the instant `now` comes to, and what
/// it leaves in the revocation store. A request without a token lacks its
/// credentials. A token is admitted where it is validly signed under
/// `secret` and unexpired, names the channel it came through, and is held as
/// good by the store; it is then used up: its record is overwritten with
/// zero, the expiry kept. Any other token is invalid, and the store stays
/// as it is.
pub open spec fn refresh_admission(
    entries: CacheView,
    secret: Seq<char>,
    presented: Option<(Seq<char>, RefreshTokenType)>,
    now: i64,
    r: Result<RefreshTokenClaims, AuthError>,
    new_entries: CacheView,
) -> bool {
    match presented {
        None => {
            &&& r matches Err(e) && e == AuthError::MissingCredentials
            &&& new_entries == entries
        },
        Some((token, kind)) => match valid_refresh_claims(token, secret, now, kind) {
            Some(c) => if refresh_token_live(entries, c, now) {
                &&& r matches Ok(claims) && claims@ == c
                &&& new_entries == after_set_keepttl(entries, refresh_key(c.sub, c.jti), 0, now)
            } else {
                &&& r matches Err(e) && e == AuthError::InvalidToken
                &&& new_entries == entries
            },
            None => {
                &&& r matches Err(e) && e == AuthError::InvalidToken
                &&& new_entries == entries
            },
        },
    }
}

/// The channel that was asked for.
pub open spec fn kind_of(refresh_token_type: Option<&RefreshTokenType>) -> Option<
    RefreshTokenType,
> {
    match refresh_token_type {
        Some(k) => Some(*k),
        None => None,
    }
}

/// The claims of the refresh token that came with a logout.
pub open spec fn refresh_view(refresh_token: Option<RefreshTokenClaims>) -> Option<
    RefreshTokenClaimsView,
> {
    match refresh_token {
        Some(rc) => Some(rc@),
        None => None,
    }
}

/// The refresh token of a request, as contracts see it: the cookie wins over
/// the body.
pub open spec fn presented(cookie: Option<String>, body: Option<String>) -> Option<
    (Seq<char>, RefreshTokenType),
> {
    match (cookie, body) {
        (Some(c), _) => Some((c@, RefreshTokenType::Cookie)),
        (None, Some(b)) => Some((b@, RefreshTokenType::Token)),
        (None, None) => None,
    }
}

/// The device recorded for a login: the one it names, if the user is known
/// to own it.
pub open spec fn known_device(
    devices: Seq<Device>,
    user_id: i32,
    named: Option<Seq<char>>,
) -> Option<Seq<char>> {
    match named {
        Some(name) => if device_known(devices, user_id, name) {
            Some(name)
        } else {
            None
        },
        None => None,
    }
}

} // verus!
