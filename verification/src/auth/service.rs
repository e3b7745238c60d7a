//! The authentication service: registration, login, refresh, logout,
//! password recovery, and the checks that admit a presented token.
//!
//! Each operation that needs the clock or fresh randomness comes twice: once
//! taking the instant and the random values as arguments, with an exact
//! contract, and once drawing them itself.

use vstd::prelude::*;
use vstd::string::*;
use vstd::utf8::*;

use crate::auth::auth_error::{AuthError, AuthResult};
use crate::auth::claims::{signed_access_claims, Claims, ClaimsView};
use crate::auth::laws::lemma_found_user_has_id;
use crate::auth::outcome::{
    access_token_live, authorize_result, bearer_view, cache_after_logout, is_view_of,
    issue_outcome, kind_of, known_device, login_outcome, one_more, presented,
    recovery_finish_outcome, recovery_start_outcome, refresh_admission, refresh_outcome,
    refresh_token_live, refresh_view, register_outcome,
};
use crate::auth::refresh_token::{
    presented_refresh_token, signed_refresh_claims, RefreshTokenClaims,
};
use crate::cache::{expiry_of, RevocationStore};
use crate::clock::{rfc3339, unix_now};
use crate::cryptography::key_of_material;
use crate::digest::sha256_hex;
use crate::hasher::{verify_result, HashFormatError, SALT_LENGTH};
use crate::mail_service::{Mail, MailService};
use crate::model::auth::{
    AccessToken, LoginRequest, PasswordRecoveryFinish, PasswordRecoveryStart, RefreshTokenType,
    UserRegister, UserView,
};
use crate::random::{generate_string, generate_string_vec_u8, new_master_key, new_token_id};
use crate::repository::models::user::{
    find_user_by_email, find_user_by_id, with_fail_attempts, with_password, NewUser, User,
};
use crate::repository::models::user_password_recovery::NewUserPasswordRecovery;
use crate::repository::repositories::devices_repository::DevicesRepository;
use crate::repository::repositories::users_repository::UsersRepository;
use crate::text::{opt_clone, opt_view};

verus! {

/// How long an access token holds, in seconds, unless configured otherwise.
pub const ACCESS_TTL_SECONDS: usize = 60;

/// How long a refresh token holds, in seconds, unless configured otherwise.
pub const REFRESH_TTL_SECONDS: usize = 300;

/// How long a password recovery can be finished, in seconds, unless
/// configured otherwise.
pub const RECOVERY_WINDOW_SECONDS: i64 = 300;

/// What the service is configured with: one signing secret for each kind of
/// token, so that neither can forge the other, and the lifetimes.
#[derive(Debug)]
pub struct AuthConfig {
    pub access_secret: String,
    pub refresh_secret: String,
    pub access_ttl: usize,
    pub refresh_ttl: usize,
    pub recovery_window: i64,
}

impl Clone for AuthConfig {
    fn clone(&self) -> (r: Self)
        ensures
            r == *self,
    {
        AuthConfig {
            access_secret: self.access_secret.clone(),
            refresh_secret: self.refresh_secret.clone(),
            access_ttl: self.access_ttl,
            refresh_ttl: self.refresh_ttl,
            recovery_window: self.recovery_window,
        }
    }
}

impl AuthConfig {
    /// A configuration with the two secrets and the default lifetimes.
    pub fn new(access_secret: String, refresh_secret: String) -> (r: AuthConfig)
        ensures
            r.access_secret == access_secret,
            r.refresh_secret == refresh_secret,
            r.access_ttl == ACCESS_TTL_SECONDS,
            r.refresh_ttl == REFRESH_TTL_SECONDS,
            r.recovery_window == RECOVERY_WINDOW_SECONDS,
    {
        AuthConfig {
            access_secret,
            refresh_secret,
            access_ttl: ACCESS_TTL_SECONDS,
            refresh_ttl: REFRESH_TTL_SECONDS,
            recovery_window: RECOVERY_WINDOW_SECONDS,
        }
    }
}

/// The authentication service over a repository and a revocation store.
pub struct AuthService<T, C> where T: UsersRepository + DevicesRepository, C: RevocationStore {
    pub repository: T,
    pub cache: C,
    pub config: AuthConfig,
}

impl<T, C> AuthService<T, C> where T: UsersRepository + DevicesRepository, C: RevocationStore {
    pub fn new(repository: T, cache: C, config: AuthConfig) -> (r: AuthService<T, C>)
        ensures
            r.repository == repository,
            r.cache == cache,
            r.config == config,
    {
        AuthService { repository, cache, config }
    }

    /// Checks a password against a stored hash.
    pub fn verify_password(&self, hash_password: &str, password: &str) -> (r: Result<
        bool,
        AuthError,
    >)
        ensures
            match verify_result(hash_password@, password@) {
                Ok(b) => r == Ok::<bool, AuthError>(b),
                Err(_) => r == Err::<bool, AuthError>(AuthError::HashFormat),
            },
    {
        match crate::hasher::verify(hash_password, password) {
            Ok(b) => Ok(b),
            Err(_) => Err(AuthError::HashFormat),
        }
    }

    /// Hashes a password under a fresh random salt. It succeeds on every
    /// password of at most 2^32 - 1 bytes, and the hash verifies against the
    /// password.
    pub fn hash_password(password: String) -> (r: Result<String, AuthError>)
        ensures
            r is Ok <==> encode_utf8(password@).len() <= 0xFFFF_FFFF,
            r matches Ok(h) ==> verify_result(h@, password@) == Ok::<bool, HashFormatError>(true),
            r matches Err(e) ==> e == AuthError::HashFormat,
    {
        match crate::hasher::hash(password.as_str()) {
            Ok(h) => Ok(h),
            Err(_) => Err(AuthError::HashFormat),
        }
    }

    /// Checks the password of a login against the user's hash. A wrong
    /// password is counted against the user. The count is kept for the
    /// record: it locks nobody out.
    pub fn verify_user_password(&mut self, login_password: &str, user: &User, now: i64) -> (r:
        AuthResult)
        ensures
            match verify_result(user.password@, login_password@) {
                Ok(true) => r is Ok && final(self).repository == old(self).repository,
                Ok(false) => {
                    &&& r == Err::<(), AuthError>(AuthError::InvalidCredentials)
                    &&& final(self).repository.users() == with_fail_attempts(
                        old(self).repository.users(),
                        user.id,
                        one_more(user.fail_attempts),
                        now,
                    )
                    &&& final(self).repository.recoveries() == old(self).repository.recoveries()
                },
                Err(_) => {
                    &&& r == Err::<(), AuthError>(AuthError::HashFormat)
                    &&& final(self).repository == old(self).repository
                },
            },
            final(self).repository.devices() == old(self).repository.devices(),
            final(self).cache == old(self).cache,
            final(self).config == old(self).config,
    {
        match self.verify_password(user.password.as_str(), login_password) {
            Ok(true) => Ok(()),
            Ok(false) => {
                let fail_attempts = if user.fail_attempts < i16::MAX {
                    user.fail_attempts + 1
                } else {
                    user.fail_attempts
                };
                self.repository.users_update_fail_attempts(user.id, fail_attempts, now);
                Err(AuthError::InvalidCredentials)
            },
            Err(e) => Err(e),
        }
    }

    /// The device that a login names, if the user is known to own it.
    pub fn find_device_name(&self, login: &LoginRequest, user: &User) -> (r: Option<String>)
        ensures
            opt_view(r) == known_device(
                self.repository.devices(),
                user.id,
                opt_view(login.device_name),
            ),
    {
        match &login.device_name {
            Some(device_name) => self.repository.devices_find_device_name(
                user.id,
                device_name.as_str(),
            ),
            None => None,
        }
    }

    /// Issues tokens to a user at the instant `now` under the given fresh
    /// identifiers, and records them in the revocation store.
    pub fn issue_tokens(
        &mut self,
        user: &User,
        device_name: Option<String>,
        refresh_token_type: Option<RefreshTokenType>,
        now: i64,
        access_jti: String,
        refresh_jti: String,
    ) -> (r: AuthResult<AccessToken>)
        ensures
            issue_outcome(
                old(self).cache.entries(),
                old(self).config,
                user.id,
                opt_view(device_name),
                refresh_token_type,
                now,
                access_jti@,
                refresh_jti@,
                r,
                final(self).cache.entries(),
            ),
            final(self).repository == old(self).repository,
            final(self).config == old(self).config,
    {
        let claims = Claims {
            jti: access_jti,
            sub: user.id,
            device: opt_clone(&device_name),
            exp: expiry_of(now, self.config.access_ttl),
        };
        let access_token = match claims.sign(self.config.access_secret.as_str()) {
            Ok(t) => t,
            Err(e) => {
                return Err(e);
            },
        };
        let refresh = match refresh_token_type {
            Some(kind) => {
                let refresh_claims = RefreshTokenClaims {
                    jti: refresh_jti,
                    sub: user.id,
                    device: device_name,
                    exp: expiry_of(now, self.config.refresh_ttl),
                    refresh_token_type: kind,
                };
                match refresh_claims.sign(self.config.refresh_secret.as_str()) {
                    Ok(t) => Some((t, refresh_claims.store_key())),
                    Err(e) => {
                        return Err(e);
                    },
                }
            },
            None => None,
        };
        let key = claims.store_key();
        self.cache.set_and_expire(key.as_str(), 1, self.config.access_ttl, now);
        let refresh_token = match refresh {
            Some((t, key)) => {
                self.cache.set_and_expire(key.as_str(), 1, self.config.refresh_ttl, now);
                Some(t)
            },
            None => None,
        };
        Ok(AccessToken { access_token, token_type: String::from_str("Bearer"), refresh_token })
    }

    /// Logs a user in at the instant `now`, issuing tokens under the given
    /// fresh identifiers.
    pub fn login_at(
        &mut self,
        login: &LoginRequest,
        now: i64,
        access_jti: String,
        refresh_jti: String,
    ) -> (r: AuthResult<AccessToken>)
        ensures
            login_outcome(
                old(self).repository.users(),
                old(self).repository.devices(),
                old(self).cache.entries(),
                old(self).config,
                *login,
                now,
                access_jti@,
                refresh_jti@,
                r,
                final(self).repository.users(),
                final(self).cache.entries(),
            ),
            final(self).repository.recoveries() == old(self).repository.recoveries(),
            final(self).repository.devices() == old(self).repository.devices(),
            final(self).config == old(self).config,
    {
        let user = match self.repository.users_find_by_email(login.email.as_str()) {
            Some(user) => user,
            None => {
                return Err(AuthError::InvalidCredentials);
            },
        };
        match self.verify_user_password(login.password.as_str(), &user, now) {
            Ok(_) => {},
            Err(e) => {
                return Err(e);
            },
        }
        let device_name = self.find_device_name(login, &user);
        self.repository.users_update_last_login(user.id, now);
        self.issue_tokens(&user, device_name, login.refresh_token, now, access_jti, refresh_jti)
    }

    /// Logs a user in now, under fresh token identifiers.
    pub fn login(&mut self, login: &LoginRequest) -> (r: AuthResult<AccessToken>)
        ensures
            exists|now: i64, access_jti: Seq<char>, refresh_jti: Seq<char>| #[trigger]
                login_outcome(
                    old(self).repository.users(),
                    old(self).repository.devices(),
                    old(self).cache.entries(),
                    old(self).config,
                    *login,
                    now,
                    access_jti,
                    refresh_jti,
                    r,
                    final(self).repository.users(),
                    final(self).cache.entries(),
                ),
            final(self).repository.recoveries() == old(self).repository.recoveries(),
            final(self).repository.devices() == old(self).repository.devices(),
            final(self).config == old(self).config,
    {
        let now = unix_now();
        let access_jti = new_token_id();
        let refresh_jti = new_token_id();
        self.login_at(login, now, access_jti, refresh_jti)
    }

    /// Issues tokens to a user now, under fresh token identifiers.
    pub fn get_token(
        &mut self,
        user: &User,
        device_name: Option<String>,
        refresh_token_type: Option<&RefreshTokenType>,
    ) -> (r: AuthResult<AccessToken>)
        ensures
            exists|now: i64, access_jti: Seq<char>, refresh_jti: Seq<char>| #[trigger]
                issue_outcome(
                    old(self).cache.entries(),
                    old(self).config,
                    user.id,
                    opt_view(device_name),
                    kind_of(refresh_token_type),
                    now,
                    access_jti,
                    refresh_jti,
                    r,
                    final(self).cache.entries(),
                ),
            final(self).repository == old(self).repository,
            final(self).config == old(self).config,
    {
        let kind = match refresh_token_type {
            Some(k) => Some(*k),
            None => None,
        };
        let now = unix_now();
        let access_jti = new_token_id();
        let refresh_jti = new_token_id();
        self.issue_tokens(user, device_name, kind, now, access_jti, refresh_jti)
    }

    /// Mints a fresh pair of tokens at the instant `now` for the user of a
    /// refresh token that was already admitted, bound to the same device and
    /// channel.
    pub fn refresh_token_at(
        &mut self,
        refresh_token_claims: &RefreshTokenClaims,
        now: i64,
        access_jti: String,
        refresh_jti: String,
    ) -> (r: AuthResult<AccessToken>)
        ensures
            refresh_outcome(
                old(self).repository.users(),
                old(self).cache.entries(),
                old(self).config,
                refresh_token_claims@,
                now,
                access_jti@,
                refresh_jti@,
                r,
                final(self).cache.entries(),
            ),
            final(self).repository == old(self).repository,
            final(self).config == old(self).config,
    {
        let user = match self.repository.users_find_by_id(refresh_token_claims.sub) {
            Some(user) => user,
            None => {
                return Err(AuthError::InvalidCredentials);
            },
        };
        proof {
            lemma_found_user_has_id(self.repository.users(), refresh_token_claims.sub);
        }
        self.issue_tokens(
            &user,
            opt_clone(&refresh_token_claims.device),
            Some(refresh_token_claims.refresh_token_type),
            now,
            access_jti,
            refresh_jti,
        )
    }

    /// Mints a fresh pair of tokens now, under fresh token identifiers.
    pub fn refresh_token(&mut self, refresh_token_claims: &RefreshTokenClaims) -> (r: AuthResult<
        AccessToken,
    >)
        ensures
            exists|now: i64, access_jti: Seq<char>, refresh_jti: Seq<char>| #[trigger]
                refresh_outcome(
                    old(self).repository.users(),
                    old(self).cache.entries(),
                    old(self).config,
                    refresh_token_claims@,
                    now,
                    access_jti,
                    refresh_jti,
                    r,
                    final(self).cache.entries(),
                ),
            final(self).repository == old(self).repository,
            final(self).config == old(self).config,
    {
        let now = unix_now();
        let access_jti = new_token_id();
        let refresh_jti = new_token_id();
        self.refresh_token_at(refresh_token_claims, now, access_jti, refresh_jti)
    }

    /// Logs out at the instant `now`. It never fails, and from then on the
    /// store holds neither token as good, at any instant.
    pub fn logout_at(
        &mut self,
        claims: Claims,
        refresh_token: Option<RefreshTokenClaims>,
        now: i64,
    ) -> (r: AuthResult)
        ensures
            r is Ok,
            final(self).cache.entries() == cache_after_logout(
                old(self).cache.entries(),
                claims@,
                refresh_view(refresh_token),
                now,
            ),
            forall|t: i64| !#[trigger] access_token_live(final(self).cache.entries(), claims@, t),
            refresh_token matches Some(rc) ==> forall|t: i64|
                !#[trigger] refresh_token_live(final(self).cache.entries(), rc@, t),
            final(self).repository == old(self).repository,
            final(self).config == old(self).config,
    {
        let key = claims.store_key();
        self.cache.set_keepttl(key.as_str(), 0, now);
        if let Some(refresh_token) = refresh_token {
            let key = refresh_token.store_key();
            self.cache.set_keepttl(key.as_str(), 0, now);
        }
        Ok(())
    }

    /// Logs out now.
    pub fn logout(&mut self, claims: Claims, refresh_token: Option<RefreshTokenClaims>) -> (r:
        AuthResult)
        ensures
            r is Ok,
            exists|now: i64|
                final(self).cache.entries() == #[trigger] cache_after_logout(
                    old(self).cache.entries(),
                    claims@,
                    refresh_view(refresh_token),
                    now,
                ),
            forall|t: i64| !#[trigger] access_token_live(final(self).cache.entries(), claims@, t),
            refresh_token matches Some(rc) ==> forall|t: i64|
                !#[trigger] refresh_token_live(final(self).cache.entries(), rc@, t),
            final(self).repository == old(self).repository,
            final(self).config == old(self).config,
    {
        let now = unix_now();
        self.logout_at(claims, refresh_token, now)
    }

    /// Registers a user under the given salt and key material. An address
    /// that is taken is refused, and then nothing changes. The refusal tells
    /// the caller that the address has a user; a password recovery, which
    /// anyone can start for any address, tells nothing of the kind.
    pub fn register_with(&mut self, user: UserRegister, salt: &[u8], master_key: String) -> (r:
        Result<(), AuthError>)
        ensures
            register_outcome(
                old(self).repository.users(),
                user,
                salt@,
                master_key,
                r,
                final(self).repository.users(),
            ),
            final(self).repository.recoveries() == old(self).repository.recoveries(),
            final(self).cache == old(self).cache,
            final(self).repository.devices() == old(self).repository.devices(),
            final(self).config == old(self).config,
    {
        if self.repository.users_find_by_email(user.email.as_str()).is_some() {
            return Err(AuthError::EmailAlreadyTaken);
        }
        let password = match crate::hasher::hash_with_salt(user.password.as_str(), salt) {
            Ok(h) => h,
            Err(_) => {
                return Err(AuthError::HashFormat);
            },
        };
        let new_user = NewUser {
            name: user.name,
            email: user.email,
            password,
            master_key: Some(master_key),
        };
        let ghost before = self.repository.users();
        match self.repository.users_insert(new_user) {
            Ok(_) => {
                assert(self.repository.users().drop_last() =~= before);
                Ok(())
            },
            Err(_) => Err(AuthError::Storage),
        }
    }

    /// Registers a user under a fresh salt and fresh key material, which
    /// writes 32 random bytes. An address that is taken is refused, and then
    /// nothing changes.
    pub fn register(&mut self, user: UserRegister) -> (r: Result<(), AuthError>)
        ensures
            exists|salt: Seq<u8>, master_key: String|
                salt.len() == SALT_LENGTH && key_of_material(master_key@) is Some
                    && #[trigger] register_outcome(
                    old(self).repository.users(),
                    user,
                    salt,
                    master_key,
                    r,
                    final(self).repository.users(),
                ),
            find_user_by_email(old(self).repository.users(), user.email@) is Some ==> {
                &&& r == Err::<(), AuthError>(AuthError::EmailAlreadyTaken)
                &&& final(self).repository.users() == old(self).repository.users()
            },
            final(self).repository.recoveries() == old(self).repository.recoveries(),
            final(self).cache == old(self).cache,
            final(self).repository.devices() == old(self).repository.devices(),
            final(self).config == old(self).config,
    {
        let salt = generate_string_vec_u8(SALT_LENGTH);
        let master_key = new_master_key();
        self.register_with(user, salt.as_slice(), master_key)
    }

    /// The caller's own view.
    pub fn get_me(&self, id: i32) -> (r: Result<UserView, AuthError>)
        ensures
            match find_user_by_id(self.repository.users(), id) {
                None => r matches Err(e) && e == AuthError::WrongCredentials,
                Some(user) => r matches Ok(view) && is_view_of(view, user),
            },
    {
        let user = match self.repository.users_find_by_id(id) {
            Some(user) => user,
            None => {
                return Err(AuthError::WrongCredentials);
            },
        };
        let last_login = match user.last_login {
            Some(t) => rfc3339(t),
            None => None,
        };
        Ok(UserView { email: user.email, name: user.name, last_login })
    }

    /// Starts a password recovery at the instant `now` with the secret
    /// `token`, and composes the notice that carries the secret to the user.
    /// For an address that no user has it does nothing, and says so to
    /// nobody.
    pub fn password_recovery_start_with(
        &mut self,
        pass_recovery: PasswordRecoveryStart,
        token: &str,
        now: i64,
    ) -> (r: Result<Option<Mail>, AuthError>)
        ensures
            recovery_start_outcome(
                old(self).repository.users(),
                old(self).repository.recoveries(),
                pass_recovery.email@,
                token@,
                now,
                r,
                final(self).repository.recoveries(),
            ),
            final(self).repository.users() == old(self).repository.users(),
            final(self).cache == old(self).cache,
            final(self).repository.devices() == old(self).repository.devices(),
            final(self).config == old(self).config,
    {
        let user = match self.repository.users_find_by_email(pass_recovery.email.as_str()) {
            Some(user) => user,
            None => {
                return Ok(None);
            },
        };
        let hash_token = self.hash(token.as_bytes());
        let user_password_recovery = NewUserPasswordRecovery {
            token: hash_token,
            user_id: user.id,
            issued_at: now,
            valid: true,
        };
        let ghost before = self.repository.recoveries();
        match self.repository.users_password_recovery_insert(user_password_recovery) {
            Ok(_) => {
                assert(self.repository.recoveries().drop_last() =~= before);
            },
            Err(_) => {
                return Err(AuthError::Storage);
            },
        }
        Ok(
            Some(
                MailService::password_recovery_mail(
                    user.name.as_str(),
                    user.email.as_str(),
                    token,
                ),
            ),
        )
    }

    /// Starts a password recovery now with a fresh random secret of 64
    /// letters and digits.
    pub fn password_recovery_start(&mut self, pass_recovery: PasswordRecoveryStart) -> (r: Result<
        Option<Mail>,
        AuthError,
    >)
        ensures
            exists|token: Seq<char>, now: i64|
                token.len() == 64 && #[trigger] recovery_start_outcome(
                    old(self).repository.users(),
                    old(self).repository.recoveries(),
                    pass_recovery.email@,
                    token,
                    now,
                    r,
                    final(self).repository.recoveries(),
                ),
            find_user_by_email(old(self).repository.users(), pass_recovery.email@) is None ==> (r
                matches Ok(None)) && final(self).repository.recoveries() == old(
                self).repository.recoveries(),
            final(self).repository.users() == old(self).repository.users(),
            final(self).cache == old(self).cache,
            final(self).repository.devices() == old(self).repository.devices(),
            final(self).config == old(self).config,
    {
        let token = generate_string(64);
        let now = unix_now();
        self.password_recovery_start_with(pass_recovery, token.as_str(), now)
    }

    /// The hexadecimal SHA-256 digest of `data`.
    pub fn hash(&self, data: &[u8]) -> (r: String)
        ensures
            r@ == sha256_hex(data@),
    {
        crate::digest::hash(data)
    }

    /// Finishes a password recovery at the instant `now`, hashing the new
    /// password under the given salt.
    pub fn password_recovery_finish_with(
        &mut self,
        pass_recovery: PasswordRecoveryFinish,
        salt: &[u8],
        now: i64,
    ) -> (r: Result<(), AuthError>)
        ensures
            recovery_finish_outcome(
                old(self).repository.users(),
                old(self).repository.recoveries(),
                old(self).config.recovery_window,
                pass_recovery,
                salt@,
                now,
                r,
                final(self).repository.users(),
                final(self).repository.recoveries(),
            ),
            final(self).cache == old(self).cache,
            final(self).repository.devices() == old(self).repository.devices(),
            final(self).config == old(self).config,
    {
        let token = self.hash(pass_recovery.token.as_str().as_bytes());
        let recovery = match self.repository.users_password_recovery_find_by_token(
            token.as_str(),
        ) {
            Some(recovery) => recovery,
            None => {
                return Ok(());
            },
        };
        let deadline: i128 = recovery.issued_at as i128 + self.config.recovery_window as i128;
        if recovery.valid && deadline > now as i128 {
            let password = match crate::hasher::hash_with_salt(
                pass_recovery.password.as_str(),
                salt,
            ) {
                Ok(h) => h,
                Err(_) => {
                    return Err(AuthError::HashFormat);
                },
            };
            let ghost users = self.repository.users();
            self.repository.users_password_recovery_invalide(token);
            self.repository.users_update_password(recovery.user_id, password);
            assert(final(self).repository.users() == with_password(
                users,
                recovery.user_id,
                password,
            ));
        }
        Ok(())
    }

    /// Finishes a password recovery now, hashing the new password under a
    /// fresh salt.
    pub fn password_recovery_finish(&mut self, pass_recovery: PasswordRecoveryFinish) -> (r: Result<
        (),
        AuthError,
    >)
        ensures
            exists|salt: Seq<u8>, now: i64|
                salt.len() == SALT_LENGTH && #[trigger] recovery_finish_outcome(
                    old(self).repository.users(),
                    old(self).repository.recoveries(),
                    old(self).config.recovery_window,
                    pass_recovery,
                    salt,
                    now,
                    r,
                    final(self).repository.users(),
                    final(self).repository.recoveries(),
                ),
            final(self).cache == old(self).cache,
            final(self).repository.devices() == old(self).repository.devices(),
            final(self).config == old(self).config,
    {
        let salt = generate_string_vec_u8(SALT_LENGTH);
        let now = unix_now();
        self.password_recovery_finish_with(pass_recovery, salt.as_slice(), now)
    }

    /// Admits a bearer token at the instant `now`: it must be validly
    /// signed and unexpired, and the revocation store must hold it as good.
    pub fn authorize_at(&self, bearer: Option<&str>, now: i64) -> (r: Result<Claims, AuthError>)
        ensures
            match r {
                Ok(claims) => authorize_result(
                    self.cache.entries(),
                    self.config.access_secret@,
                    bearer_view(bearer),
                    now,
                ) == Ok::<ClaimsView, AuthError>(claims@),
                Err(e) => authorize_result(
                    self.cache.entries(),
                    self.config.access_secret@,
                    bearer_view(bearer),
                    now,
                ) == Err::<ClaimsView, AuthError>(e),
            },
    {
        let token = match bearer {
            Some(token) => token,
            None => {
                return Err(AuthError::MissingCredentials);
            },
        };
        let claims = match Claims::verify(token, self.config.access_secret.as_str(), now) {
            Ok(claims) => claims,
            Err(e) => {
                return Err(e);
            },
        };
        let key = claims.store_key();
        match self.cache.get(key.as_str(), now) {
            Some(valid_token) => if valid_token == 1 {
                Ok(claims)
            } else {
                Err(AuthError::InvalidToken)
            },
            None => Err(AuthError::InvalidToken),
        }
    }

    /// Admits a bearer token now. Whatever the clock reads: a request without
    /// a token lacks its credentials, and no other does; and a token that is
    /// not validly signed or does not read as access claims is invalid.
    pub fn authorize(&self, bearer: Option<&str>) -> (r: Result<Claims, AuthError>)
        ensures
            exists|now: i64|
                match r {
                    Ok(claims) => #[trigger] authorize_result(
                        self.cache.entries(),
                        self.config.access_secret@,
                        bearer_view(bearer),
                        now,
                    ) == Ok::<ClaimsView, AuthError>(claims@),
                    Err(e) => authorize_result(
                        self.cache.entries(),
                        self.config.access_secret@,
                        bearer_view(bearer),
                        now,
                    ) == Err::<ClaimsView, AuthError>(e),
                },
            r == Err::<Claims, AuthError>(AuthError::MissingCredentials) <==> bearer is None,
            r matches Err(e) ==> e == AuthError::MissingCredentials || e == AuthError::InvalidToken,
            bearer matches Some(token) ==> {
                &&& signed_access_claims(token@, self.config.access_secret@) is None ==> r
                    == Err::<Claims, AuthError>(AuthError::InvalidToken)
                &&& r matches Ok(claims) ==> signed_access_claims(
                    token@,
                    self.config.access_secret@,
                ) == Some(claims@)
            },
    {
        let now = unix_now();
        self.authorize_at(bearer, now)
    }

    /// Admits a refresh token at the instant `now` and uses it up. The
    /// token in the cookie wins over the one in the body; it must be validly
    /// signed and unexpired, name the channel it came through, and be held
    /// as good by the revocation store. Once admitted it is never good
    /// again.
    pub fn authorize_refresh_at(
        &mut self,
        cookie: Option<String>,
        body: Option<String>,
        now: i64,
    ) -> (r: Result<RefreshTokenClaims, AuthError>)
        ensures
            refresh_admission(
                old(self).cache.entries(),
                old(self).config.refresh_secret@,
                presented(cookie, body),
                now,
                r,
                final(self).cache.entries(),
            ),
            r matches Ok(claims) ==> forall|t: i64|
                !#[trigger] refresh_token_live(final(self).cache.entries(), claims@, t),
            final(self).repository == old(self).repository,
            final(self).config == old(self).config,
    {
        let (token, kind) = match presented_refresh_token(cookie, body) {
            Some(found) => found,
            None => {
                return Err(AuthError::MissingCredentials);
            },
        };
        let claims = match RefreshTokenClaims::verify(
            token.as_str(),
            self.config.refresh_secret.as_str(),
            now,
            kind,
        ) {
            Ok(claims) => claims,
            Err(e) => {
                return Err(e);
            },
        };
        let key = claims.store_key();
        match self.cache.get(key.as_str(), now) {
            Some(valid_token) => if valid_token == 1 {
                self.cache.set_keepttl(key.as_str(), 0, now);
                Ok(claims)
            } else {
                Err(AuthError::InvalidToken)
            },
            None => Err(AuthError::InvalidToken),
        }
    }

    /// Admits a refresh token now and uses it up. Whatever the clock reads:
    /// a request without a token lacks its credentials, and no other does;
    /// and a token that is not validly signed, does not read as refresh
    /// claims, or names another channel than it came through is invalid.
    pub fn authorize_refresh(&mut self, cookie: Option<String>, body: Option<String>) -> (r: Result<
        RefreshTokenClaims,
        AuthError,
    >)
        ensures
            exists|now: i64| #[trigger]
                refresh_admission(
                    old(self).cache.entries(),
                    old(self).config.refresh_secret@,
                    presented(cookie, body),
                    now,
                    r,
                    final(self).cache.entries(),
                ),
            r == Err::<RefreshTokenClaims, AuthError>(AuthError::MissingCredentials) <==> presented(
                cookie,
                body,
            ) is None,
            presented(cookie, body) matches Some((token, kind)) ==> {
                &&& !(signed_refresh_claims(token, old(self).config.refresh_secret@) matches Some(c)
                    && c.refresh_token_type == kind) ==> r == Err::<RefreshTokenClaims, AuthError>(
                    AuthError::InvalidToken,
                )
                &&& r matches Ok(claims) ==> claims.refresh_token_type == kind
                    && signed_refresh_claims(token, old(self).config.refresh_secret@) == Some(
                    claims@,
                )
            },
            r is Err ==> final(self).cache.entries() == old(self).cache.entries(),
            r matches Ok(claims) ==> forall|t: i64|
                !#[trigger] refresh_token_live(final(self).cache.entries(), claims@, t),
            final(self).repository == old(self).repository,
            final(self).config == old(self).config,
    {
        let now = unix_now();
        self.authorize_refresh_at(cookie, body, now)
    }
}

} // verus!
