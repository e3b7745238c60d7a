//! Users.

use vstd::prelude::*;

use crate::text::opt_clone;

verus! {

/// A user. Instants are seconds since the Unix epoch. The master key is the
/// user's key material: 32 bytes written in hexadecimal, made once when the
/// user registers, and shown in no view.
#[derive(Debug)]
pub struct User {
    pub id: i32,
    pub name: String,
    pub email: String,
    pub password: String,
    pub master_key: Option<String>,
    pub last_login: Option<i64>,
    pub fail_attempts: i16,
    pub last_attempt: Option<i64>,
}

/// A user that has no row yet.
#[derive(Debug)]
pub struct NewUser {
    pub name: String,
    pub email: String,
    pub password: String,
    pub master_key: Option<String>,
}

impl Clone for User {
    fn clone(&self) -> (r: Self)
        ensures
            r == *self,
    {
        User {
            id: self.id,
            name: self.name.clone(),
            email: self.email.clone(),
            password: self.password.clone(),
            master_key: opt_clone(&self.master_key),
            last_login: self.last_login,
            fail_attempts: self.fail_attempts,
            last_attempt: self.last_attempt,
        }
    }
}

/// The row that a new user gets under `id`.
pub open spec fn user_row(id: i32, user: NewUser) -> User {
    User {
        id,
        name: user.name,
        email: user.email,
        password: user.password,
        master_key: user.master_key,
        last_login: None,
        fail_attempts: 0,
        last_attempt: None,
    }
}

/// The first user with the given email address.
pub open spec fn find_user_by_email(users: Seq<User>, email: Seq<char>) -> Option<User>
    decreases users.len(),
{
    if users.len() == 0 {
        None
    } else if users.first().email@ == email {
        Some(users.first())
    } else {
        find_user_by_email(users.drop_first(), email)
    }
}

/// The first user with the given id.
pub open spec fn find_user_by_id(users: Seq<User>, id: i32) -> Option<User>
    decreases users.len(),
{
    if users.len() == 0 {
        None
    } else if users.first().id == id {
        Some(users.first())
    } else {
        find_user_by_id(users.drop_first(), id)
    }
}

/// A user seen logging in at the instant `now`.
pub open spec fn logged_in(user: User, now: i64) -> User {
    User { last_login: Some(now), ..user }
}

/// A user with a failed attempt recorded at the instant `now`.
pub open spec fn attempted(user: User, fail_attempts: i16, now: i64) -> User {
    User { fail_attempts, last_attempt: Some(now), ..user }
}

/// A user with another password hash.
pub open spec fn rehashed(user: User, password: String) -> User {
    User { password, ..user }
}

/// The users after the one with id `user_id` was seen logging in.
pub open spec fn with_last_login(users: Seq<User>, user_id: i32, now: i64) -> Seq<User> {
    Seq::new(
        users.len(),
        |i: int|
            if users[i].id == user_id {
                logged_in(users[i], now)
            } else {
                users[i]
            },
    )
}

/// The users after a failed attempt was recorded for the one with id
/// `user_id`.
pub open spec fn with_fail_attempts(
    users: Seq<User>,
    user_id: i32,
    fail_attempts: i16,
    now: i64,
) -> Seq<User> {
    Seq::new(
        users.len(),
        |i: int|
            if users[i].id == user_id {
                attempted(users[i], fail_attempts, now)
            } else {
                users[i]
            },
    )
}

/// The users after the one with id `user_id` got another password hash.
pub open spec fn with_password(users: Seq<User>, user_id: i32, password: String) -> Seq<User> {
    Seq::new(
        users.len(),
        |i: int|
            if users[i].id == user_id {
                rehashed(users[i], password)
            } else {
                users[i]
            },
    )
}

} // verus!
