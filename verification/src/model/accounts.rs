//! Requests and views of account groups and accounts.

use vstd::prelude::*;

verus! {

/// A request to create an account group.
#[derive(Debug)]
pub struct AccountGroupRegister {
    pub name: String,
}

/// An account group as shown to its owner.
#[derive(Debug)]
pub struct AccountGroupView {
    pub id: i32,
    pub name: String,
}

/// A request to store a credential in a group.
#[derive(Debug)]
pub struct AccountRegister {
    pub name: String,
    pub group_id: i32,
    pub level: Option<i16>,
    pub username: String,
    pub password: String,
}

/// An account as shown in listings: no secret in it.
#[derive(Debug)]
pub struct AccountView {
    pub id: i32,
    pub name: String,
    pub group_id: i32,
}

/// An account with its current credential in the clear.
#[derive(Debug)]
pub struct AccountWithPasswordView {
    pub id: i32,
    pub name: String,
    pub username: Option<String>,
    pub password: Option<String>,
}

} // verus!
