//! The login command.

use vstd::prelude::*;
use vstd::string::*;

use crate::model::auth::{LoginRequest, RefreshTokenType};

verus! {

/// The device name that the client reports.
pub open spec fn reported_device() -> Seq<char> {
    "XXX"@
}

/// A login: `clean` asks to forget what the profile remembers and to ask
/// the user again.
#[derive(Debug)]
pub struct Login {
    pub clean: bool,
}

impl Login {
    pub fn new() -> (r: Login)
        ensures
            !r.clean,
    {
        Login { clean: false }
    }

    /// The remembered value to log in with, or none where the user must be
    /// asked: that is where nothing is remembered, and on a clean login.
    pub fn remembered(&self, stored: Option<&str>) -> (r: Option<String>)
        ensures
            match stored {
                Some(s) => if self.clean {
                    r is None
                } else {
                    r is Some && r.unwrap()@ == s@
                },
                None => r is None,
            },
    {
        match stored {
            Some(s) => if self.clean {
                None
            } else {
                Some(s.to_owned())
            },
            None => None,
        }
    }

    /// The request that logs in with an address and a password: it names
    /// the client's device and asks for a refresh token in the body.
    pub fn request(email: String, password: String) -> (r: LoginRequest)
        ensures
            r.email == email,
            r.password == password,
            r.device_name is Some && r.device_name.unwrap()@ == reported_device(),
            r.refresh_token == Some(RefreshTokenType::Token),
    {
        LoginRequest {
            email,
            password,
            device_name: Some(String::from_str("XXX")),
            refresh_token: Some(RefreshTokenType::Token),
        }
    }
}

} // verus!
