//! The repository of users and of their password recoveries.

use vstd::prelude::*;

use crate::repository::repositories::devices_repository::DevicesRepository;
use crate::repository::models::user::{
    find_user_by_email, find_user_by_id, user_row, with_fail_attempts, with_last_login,
    with_password, NewUser, User,
};
use crate::repository::models::user_password_recovery::{
    find_recovery_by_token, invalidated, recovery_row, NewUserPasswordRecovery,
    UserPasswordRecovery,
};

verus! {

/// Users and password recoveries, in a repository that also holds the
/// users' devices. Lookups answer with the first row that matches; a write
/// changes the rows named in its contract and no others, nor any device.
///
/// The contracts speak of the rows, which a verified implementation
/// defines. One that is written outside verified code keeps the defaults, of
/// which nothing is known, and answers for the contracts itself.
pub trait UsersRepository: DevicesRepository {
    /// The users, in the order of their rows.
    open spec fn users(&self) -> Seq<User> {
        arbitrary()
    }

    /// The password recoveries, in the order of their rows.
    open spec fn recoveries(&self) -> Seq<UserPasswordRecovery> {
        arbitrary()
    }

    fn users_find_by_email(&self, email: &str) -> (r: Option<User>)
        ensures
            r == find_user_by_email(self.users(), email@),
    ;

    fn users_find_by_id(&self, id: i32) -> (r: Option<User>)
        ensures
            r == find_user_by_id(self.users(), id),
    ;

    /// Records that the user logged in at the instant `now`.
    fn users_update_last_login(&mut self, user_id: i32, now: i64)
        ensures
            final(self).users() == with_last_login(old(self).users(), user_id, now),
            final(self).recoveries() == old(self).recoveries(),
            final(self).devices() == old(self).devices(),
    ;

    /// Records the user's count of failed attempts, the last of them at the
    /// instant `now`.
    fn users_update_fail_attempts(&mut self, user_id: i32, fail_attempts: i16, now: i64)
        ensures
            final(self).users() == with_fail_attempts(
                old(self).users(),
                user_id,
                fail_attempts,
                now,
            ),
            final(self).recoveries() == old(self).recoveries(),
            final(self).devices() == old(self).devices(),
    ;

    fn users_update_password(&mut self, user_id: i32, password: String)
        ensures
            final(self).users() == with_password(old(self).users(), user_id, password),
            final(self).recoveries() == old(self).recoveries(),
            final(self).devices() == old(self).devices(),
    ;

    /// Adds a user under an id that no user has yet, and returns that id; or
    /// refuses and changes nothing.
    fn users_insert(&mut self, user: NewUser) -> (r: Result<i32, ()>)
        ensures
            match r {
                Ok(id) => {
                    &&& find_user_by_id(old(self).users(), id) is None
                    &&& final(self).users() == old(self).users().push(user_row(id, user))
                },
                Err(_) => final(self).users() == old(self).users(),
            },
            final(self).recoveries() == old(self).recoveries(),
            final(self).devices() == old(self).devices(),
    ;

    /// Adds a password recovery; or refuses and changes nothing.
    fn users_password_recovery_insert(&mut self, password_recovery: NewUserPasswordRecovery) -> (r:
        Result<(), ()>)
        ensures
            match r {
                Ok(_) => final(self).recoveries() == old(self).recoveries().push(
                    recovery_row(password_recovery),
                ),
                Err(_) => final(self).recoveries() == old(self).recoveries(),
            },
            final(self).users() == old(self).users(),
            final(self).devices() == old(self).devices(),
    ;

    fn users_password_recovery_find_by_token(&self, token: &str) -> (r: Option<
        UserPasswordRecovery,
    >)
        ensures
            r == find_recovery_by_token(self.recoveries(), token@),
    ;

    /// Uses up every recovery with the given token digest.
    fn users_password_recovery_invalide(&mut self, token: String)
        ensures
            final(self).recoveries() == invalidated(old(self).recoveries(), token@),
            final(self).users() == old(self).users(),
            final(self).devices() == old(self).devices(),
    ;
}

} // verus!
