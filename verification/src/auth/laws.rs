//! What holds of the authentication service whatever it is asked: the life
//! of a token from issue to revocation or expiry, and what a refused request
//! leaves unchanged.

use vstd::prelude::*;
use vstd::string::*;
use vstd::utf8::*;

use crate::auth::auth_error::{AuthError, AuthResult};
use crate::auth::claims::{access_key, signed_access_claims, ClaimsView};
use crate::auth::outcome::{
    access_claims_for, access_token_live, authorize_result, cache_after_issue,
    cache_after_logout, is_issued, known_device, login_outcome, recovery_finish_outcome,
    recovery_start_outcome, register_outcome, unique_addresses, unique_ids, usable,
};
use crate::auth::refresh_token::{refresh_key, RefreshTokenClaimsView};
use crate::auth::service::AuthConfig;
use crate::cache::{expiry, CacheView};
use crate::decimal::{
    lemma_colon_separates, lemma_int_digits_are_distinct, lemma_int_digits_have_no_colon,
};
use crate::digest::sha256_hex;
use crate::mail_service::Mail;
use crate::model::auth::{
    AccessToken, LoginRequest, PasswordRecoveryFinish, RefreshTokenType, UserRegister,
};
use crate::repository::models::device::Device;
use crate::repository::models::user::{
    find_user_by_email, find_user_by_id, with_last_login, User,
};
use crate::repository::models::user_password_recovery::{
    find_recovery_by_token, invalidated, used_up, UserPasswordRecovery,
};
use crate::text::{int_digits, opt_view};

verus! {

/// The key of an access token is the key of no refresh token.
pub proof fn lemma_keys_of_two_kinds_differ(
    sub: i32,
    jti: Seq<char>,
    other_sub: i32,
    other_jti: Seq<char>,
)
    ensures
        access_key(sub, jti) != refresh_key(other_sub, other_jti),
{
    reveal_strlit("access_token:");
    reveal_strlit("refresh_token:");
    assert(access_key(sub, jti)[0] == 'a');
    assert(refresh_key(other_sub, other_jti)[0] == 'r');
}

/// Two access tokens have one key only if they are one issuance to one
/// user; and so have two refresh tokens.
pub proof fn lemma_keys_name_one_token(
    sub: i32,
    jti: Seq<char>,
    other_sub: i32,
    other_jti: Seq<char>,
)
    ensures
        access_key(sub, jti) == access_key(other_sub, other_jti) ==> sub == other_sub && jti
            == other_jti,
        refresh_key(sub, jti) == refresh_key(other_sub, other_jti) ==> sub == other_sub && jti
            == other_jti,
{
    reveal_strlit(":");
    assert(":"@ =~= seq![':']);
    lemma_int_digits_have_no_colon(sub as int);
    lemma_int_digits_have_no_colon(other_sub as int);
    let d = int_digits(sub as int);
    let e = int_digits(other_sub as int);
    if access_key(sub, jti) == access_key(other_sub, other_jti) {
        let p = "access_token:"@;
        let a = d + seq![':'] + jti;
        let b = e + seq![':'] + other_jti;
        assert(access_key(sub, jti) =~= p + a);
        assert(access_key(other_sub, other_jti) =~= p + b);
        assert(a =~= (p + a).subrange(p.len() as int, (p + a).len() as int));
        assert(b =~= (p + b).subrange(p.len() as int, (p + b).len() as int));
        lemma_colon_separates(d, jti, e, other_jti);
        lemma_int_digits_are_distinct(sub as int, other_sub as int);
    }
    if refresh_key(sub, jti) == refresh_key(other_sub, other_jti) {
        let p = "refresh_token:"@;
        let a = d + seq![':'] + jti;
        let b = e + seq![':'] + other_jti;
        assert(refresh_key(sub, jti) =~= p + a);
        assert(refresh_key(other_sub, other_jti) =~= p + b);
        assert(a =~= (p + a).subrange(p.len() as int, (p + a).len() as int));
        assert(b =~= (p + b).subrange(p.len() as int, (p + b).len() as int));
        lemma_colon_separates(d, jti, e, other_jti);
        lemma_int_digits_are_distinct(sub as int, other_sub as int);
    }
}

/// A logout revokes the tokens that were logged out and no others: what the
/// store holds of any other access token is as before.
pub proof fn lemma_logout_leaves_other_tokens(
    entries: CacheView,
    claims: ClaimsView,
    refresh: Option<RefreshTokenClaimsView>,
    logged_out_at: i64,
    other: ClaimsView,
    now: i64,
)
    requires
        other.sub != claims.sub || other.jti != claims.jti,
    ensures
        access_token_live(cache_after_logout(entries, claims, refresh, logged_out_at), other, now)
            == access_token_live(entries, other, now),
{
    lemma_keys_name_one_token(claims.sub, claims.jti, other.sub, other.jti);
    if refresh is Some {
        lemma_keys_of_two_kinds_differ(
            other.sub,
            other.jti,
            refresh.unwrap().sub,
            refresh.unwrap().jti,
        );
    }
}

/// An access token that was issued is no longer admitted once it has
/// expired, whatever became of the store's record of it.
pub proof fn lemma_expired_token_is_refused(
    entries: CacheView,
    secret: Seq<char>,
    token: Seq<char>,
    now: i64,
)
    requires
        signed_access_claims(token, secret) matches Some(c) && c.exp < now,
    ensures
        authorize_result(entries, secret, Some(token), now) == Err::<ClaimsView, AuthError>(
            AuthError::InvalidToken,
        ),
{
}

/// After a logout, a token with the claims that were logged out is refused
/// at every instant, however valid its signature and expiry still are.
pub proof fn lemma_logged_out_token_is_refused(
    entries: CacheView,
    claims: ClaimsView,
    refresh: Option<RefreshTokenClaimsView>,
    logged_out_at: i64,
    secret: Seq<char>,
    token: Seq<char>,
    now: i64,
)
    requires
        signed_access_claims(token, secret) == Some(claims),
    ensures
        authorize_result(
            cache_after_logout(entries, claims, refresh, logged_out_at),
            secret,
            Some(token),
            now,
        ) == Err::<ClaimsView, AuthError>(AuthError::InvalidToken),
{
}

/// An access token that was just issued is admitted from the instant of
/// issue until it expires.
pub proof fn lemma_issued_token_is_admitted(
    entries: CacheView,
    config: AuthConfig,
    user_id: i32,
    device: Option<Seq<char>>,
    kind: Option<RefreshTokenType>,
    issued_at: i64,
    access_jti: Seq<char>,
    refresh_jti: Seq<char>,
    token: AccessToken,
    now: i64,
)
    requires
        is_issued(token, config, user_id, device, kind, issued_at, access_jti, refresh_jti),
        issued_at <= now < expiry(issued_at, config.access_ttl),
    ensures
        authorize_result(
            cache_after_issue(entries, config, user_id, kind, issued_at, access_jti, refresh_jti),
            config.access_secret@,
            Some(token.access_token@),
            now,
        ) == Ok::<ClaimsView, AuthError>(
            access_claims_for(config, user_id, device, access_jti, issued_at),
        ),
{
    lemma_keys_of_two_kinds_differ(user_id, access_jti, user_id, refresh_jti);
}

/// An address that no lookup finds is the address of no user.
pub proof fn lemma_unfound_address_is_unused(users: Seq<User>, email: Seq<char>)
    requires
        find_user_by_email(users, email) is None,
    ensures
        forall|i: int| 0 <= i < users.len() ==> (#[trigger] users[i]).email@ != email,
    decreases users.len(),
{
    if users.len() > 0 {
        let rest = users.drop_first();
        lemma_unfound_address_is_unused(rest, email);
        assert forall|i: int| 0 <= i < users.len() implies (#[trigger] users[i]).email@
            != email by {
            if i > 0 {
                assert(users[i] == rest[i - 1]);
            } else {
                assert(users[0] == users.first());
            }
        }
    }
}

/// An id that no lookup finds is the id of no user.
pub proof fn lemma_unfound_id_is_unused(users: Seq<User>, id: i32)
    requires
        find_user_by_id(users, id) is None,
    ensures
        forall|i: int| 0 <= i < users.len() ==> (#[trigger] users[i]).id != id,
    decreases users.len(),
{
    if users.len() > 0 {
        let rest = users.drop_first();
        lemma_unfound_id_is_unused(rest, id);
        assert forall|i: int| 0 <= i < users.len() implies (#[trigger] users[i]).id != id by {
            if i > 0 {
                assert(users[i] == rest[i - 1]);
            } else {
                assert(users[0] == users.first());
            }
        }
    }
}

/// Registration keeps addresses and ids unique: where no two users shared
/// one before, none do after.
pub proof fn lemma_register_keeps_users_unique(
    users: Seq<User>,
    user: UserRegister,
    salt: Seq<u8>,
    master_key: String,
    r: Result<(), AuthError>,
    new_users: Seq<User>,
)
    requires
        register_outcome(users, user, salt, master_key, r, new_users),
    ensures
        unique_addresses(users) ==> unique_addresses(new_users),
        unique_ids(users) ==> unique_ids(new_users),
{
    if new_users != users {
        let row = new_users.last();
        assert(find_user_by_email(users, user.email@) is None);
        lemma_unfound_address_is_unused(users, user.email@);
        lemma_unfound_id_is_unused(users, row.id);
        assert forall|i: int| 0 <= i < users.len() implies new_users[i] == users[i] by {
            assert(new_users.drop_last()[i] == users[i]);
        }
    }
}

/// A registration for an address that is taken is refused and changes no
/// row.
pub proof fn lemma_taken_address_changes_nothing(
    users: Seq<User>,
    user: UserRegister,
    salt: Seq<u8>,
    master_key: String,
    r: Result<(), AuthError>,
    new_users: Seq<User>,
)
    requires
        register_outcome(users, user, salt, master_key, r, new_users),
        find_user_by_email(users, user.email@) is Some,
    ensures
        r == Err::<(), AuthError>(AuthError::EmailAlreadyTaken),
        new_users == users,
{
}

/// Starting a recovery for an address that no user has succeeds, mails
/// nothing and stores nothing.
pub proof fn lemma_unknown_address_starts_nothing(
    users: Seq<User>,
    recoveries: Seq<UserPasswordRecovery>,
    email: Seq<char>,
    token: Seq<char>,
    now: i64,
    r: Result<Option<Mail>, AuthError>,
    new_recoveries: Seq<UserPasswordRecovery>,
)
    requires
        recovery_start_outcome(users, recoveries, email, token, now, r, new_recoveries),
        find_user_by_email(users, email) is None,
    ensures
        r is Ok,
        r.unwrap() is None,
        new_recoveries == recoveries,
{
}

/// Finishing a recovery whose secret was issued `window` seconds ago or
/// earlier, or was used before, succeeds and changes neither a password nor
/// the recovery.
pub proof fn lemma_stale_recovery_changes_nothing(
    users: Seq<User>,
    recoveries: Seq<UserPasswordRecovery>,
    window: i64,
    finish: PasswordRecoveryFinish,
    salt: Seq<u8>,
    now: i64,
    r: Result<(), AuthError>,
    new_users: Seq<User>,
    new_recoveries: Seq<UserPasswordRecovery>,
)
    requires
        recovery_finish_outcome(
            users,
            recoveries,
            window,
            finish,
            salt,
            now,
            r,
            new_users,
            new_recoveries,
        ),
        match find_recovery_by_token(recoveries, sha256_hex(encode_utf8(finish.token@))) {
            Some(recovery) => !recovery.valid || now - recovery.issued_at >= window,
            None => true,
        },
    ensures
        r is Ok,
        new_users == users,
        new_recoveries == recoveries,
{
}

/// A user found by id has that id.
pub proof fn lemma_found_user_has_id(users: Seq<User>, id: i32)
    ensures
        find_user_by_id(users, id) matches Some(user) ==> user.id == id,
    decreases users.len(),
{
    if users.len() > 0 && users.first().id != id {
        lemma_found_user_has_id(users.drop_first(), id);
    }
}

/// An address that is the address of no user but the last is found as the
/// last user.
pub proof fn lemma_last_address_is_found(users: Seq<User>, row: User)
    requires
        find_user_by_email(users, row.email@) is None,
    ensures
        find_user_by_email(users.push(row), row.email@) == Some(row),
    decreases users.len(),
{
    let all = users.push(row);
    if users.len() == 0 {
        assert(all.first() == row);
    } else {
        assert(all.first() == users.first());
        assert(all.drop_first() =~= users.drop_first().push(row));
        lemma_last_address_is_found(users.drop_first(), row);
    }
}

/// An id that is the id of no user but the last is found as the last user.
pub proof fn lemma_last_id_is_found(users: Seq<User>, row: User)
    requires
        find_user_by_id(users, row.id) is None,
    ensures
        find_user_by_id(users.push(row), row.id) == Some(row),
    decreases users.len(),
{
    let all = users.push(row);
    if users.len() == 0 {
        assert(all.first() == row);
    } else {
        assert(all.first() == users.first());
        assert(all.drop_first() =~= users.drop_first().push(row));
        lemma_last_id_is_found(users.drop_first(), row);
    }
}

/// A user who was registered can log in with the address and the password
/// they registered with. The login succeeds and records itself. It gives a
/// bearer token for that user, with a refresh token exactly where one was
/// asked for; and from the instant of the login until the access token
/// expires, the token is admitted with that user's claims.
pub proof fn lemma_registered_user_can_log_in(
    users: Seq<User>,
    user: UserRegister,
    salt: Seq<u8>,
    master_key: String,
    registered: Result<(), AuthError>,
    new_users: Seq<User>,
    devices: Seq<Device>,
    cache: CacheView,
    config: AuthConfig,
    login: LoginRequest,
    now: i64,
    access_jti: Seq<char>,
    refresh_jti: Seq<char>,
    r: AuthResult<AccessToken>,
    last_users: Seq<User>,
    last_cache: CacheView,
)
    requires
        register_outcome(users, user, salt, master_key, registered, new_users),
        registered is Ok,
        login.email@ == user.email@,
        login.password@ == user.password@,
        login_outcome(
            new_users,
            devices,
            cache,
            config,
            login,
            now,
            access_jti,
            refresh_jti,
            r,
            last_users,
            last_cache,
        ),
    ensures
        r is Ok,
        last_users == with_last_login(new_users, new_users.last().id, now),
        r.unwrap().token_type@ == "Bearer"@,
        r.unwrap().refresh_token is Some <==> login.refresh_token is Some,
        signed_access_claims(r.unwrap().access_token@, config.access_secret@) == Some(
            access_claims_for(
                config,
                new_users.last().id,
                known_device(devices, new_users.last().id, opt_view(login.device_name)),
                access_jti,
                now,
            ),
        ),
        forall|later: i64|
            now <= later < expiry(now, config.access_ttl) ==> #[trigger] authorize_result(
                last_cache,
                config.access_secret@,
                Some(r.unwrap().access_token@),
                later,
            ) == Ok::<ClaimsView, AuthError>(
                access_claims_for(
                    config,
                    new_users.last().id,
                    known_device(devices, new_users.last().id, opt_view(login.device_name)),
                    access_jti,
                    now,
                ),
            ),
{
    let row = new_users.last();
    assert(new_users =~= users.push(row));
    lemma_last_address_is_found(users, row);
    let device = known_device(devices, row.id, opt_view(login.device_name));
    assert forall|later: i64|
        now <= later < expiry(now, config.access_ttl) implies #[trigger] authorize_result(
        last_cache,
        config.access_secret@,
        Some(r.unwrap().access_token@),
        later,
    ) == Ok::<ClaimsView, AuthError>(
        access_claims_for(config, row.id, device, access_jti, now),
    ) by {
        lemma_issued_token_is_admitted(
            cache,
            config,
            row.id,
            device,
            login.refresh_token,
            now,
            access_jti,
            refresh_jti,
            r.unwrap(),
            later,
        );
    }
}

/// What a lookup finds among recoveries of which those with one token
/// digest were used up: what it found before, used up if it has that
/// digest.
pub proof fn lemma_find_among_invalidated(
    recoveries: Seq<UserPasswordRecovery>,
    digest: Seq<char>,
    token: Seq<char>,
)
    ensures
        find_recovery_by_token(invalidated(recoveries, digest), token) == match
            find_recovery_by_token(recoveries, token) {
            Some(recovery) => if token == digest {
                Some(used_up(recovery))
            } else {
                Some(recovery)
            },
            None => None,
        },
    decreases recoveries.len(),
{
    let after = invalidated(recoveries, digest);
    if recoveries.len() > 0 {
        assert(after.first() == if recoveries[0].token@ == digest {
            used_up(recoveries[0])
        } else {
            recoveries[0]
        });
        assert(recoveries.first() == recoveries[0]);
        assert(after.drop_first() =~= invalidated(recoveries.drop_first(), digest));
        lemma_find_among_invalidated(recoveries.drop_first(), digest, token);
    }
}

/// A recovery is good once: after it was finished, its secret finishes
/// nothing again, at any instant and within any window.
pub proof fn lemma_finished_recovery_is_used_up(
    users: Seq<User>,
    recoveries: Seq<UserPasswordRecovery>,
    window: i64,
    finish: PasswordRecoveryFinish,
    salt: Seq<u8>,
    now: i64,
    r: Result<(), AuthError>,
    new_users: Seq<User>,
    new_recoveries: Seq<UserPasswordRecovery>,
    later: i64,
    other_window: i64,
)
    requires
        recovery_finish_outcome(
            users,
            recoveries,
            window,
            finish,
            salt,
            now,
            r,
            new_users,
            new_recoveries,
        ),
        find_recovery_by_token(recoveries, sha256_hex(encode_utf8(finish.token@))) matches Some(
            recovery,
        ) && usable(recovery, window, now),
        r is Ok,
    ensures
        find_recovery_by_token(new_recoveries, sha256_hex(encode_utf8(finish.token@))) matches Some(
            recovery,
        ) && !usable(recovery, other_window, later),
{
    let digest = sha256_hex(encode_utf8(finish.token@));
    lemma_find_among_invalidated(recoveries, digest, digest);
}

} // verus!
