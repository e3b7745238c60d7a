//! The client's side of the HTTP interface: which address each request goes
//! to, which answer means success, and what is kept of an answer.

use vstd::prelude::*;
use vstd::string::*;

use crate::cli::profile::Profile;
use crate::model::auth::AccessToken;
use crate::text::{i32_to_string, int_digits, opt_view};

verus! {

/// The server that the client talks to.
pub const BASE_URL: &'static str = "https://api.openpasswd.com";

/// The status of an answer to a request that read something.
pub const STATUS_OK: u16 = 200;

/// The status of an answer to a request that created something.
pub const STATUS_CREATED: u16 = 201;

/// The requests that the client makes.
#[derive(Clone, Copy, Debug, PartialEq, Eq, Structural)]
pub enum Endpoint {
    AuthRegister,
    AuthToken,
    AuthRefreshToken,
    AuthLogout,
    ListGroups,
    RegisterGroup,
    ListAccounts,
    RegisterAccount,
    GetAccount,
}

impl Endpoint {
    /// The status that means the request succeeded.
    pub open spec fn success(self) -> u16 {
        match self {
            Endpoint::AuthRegister => STATUS_CREATED,
            Endpoint::RegisterGroup => STATUS_CREATED,
            Endpoint::RegisterAccount => STATUS_CREATED,
            _ => STATUS_OK,
        }
    }

    /// The status that means the request succeeded.
    pub fn success_status(&self) -> (r: u16)
        ensures
            r == self.success(),
    {
        match self {
            Endpoint::AuthRegister => STATUS_CREATED,
            Endpoint::RegisterGroup => STATUS_CREATED,
            Endpoint::RegisterAccount => STATUS_CREATED,
            _ => STATUS_OK,
        }
    }

    /// The path of the request on the server, without what names one item.
    pub open spec fn path(self) -> Seq<char> {
        match self {
            Endpoint::AuthRegister => "/api/auth/user"@,
            Endpoint::AuthToken => "/api/auth/token"@,
            Endpoint::AuthRefreshToken => "/api/auth/refresh_token"@,
            Endpoint::AuthLogout => "/api/auth/logout"@,
            Endpoint::ListGroups => "/api/accounts/groups"@,
            Endpoint::RegisterGroup => "/api/accounts/groups"@,
            Endpoint::ListAccounts => "/api/accounts"@,
            Endpoint::RegisterAccount => "/api/accounts"@,
            Endpoint::GetAccount => "/api/accounts"@,
        }
    }

    /// The address of the request, without what names one item.
    pub fn url(&self) -> (r: String)
        ensures
            r@ == BASE_URL@ + self.path(),
    {
        let path = match self {
            Endpoint::AuthRegister => "/api/auth/user",
            Endpoint::AuthToken => "/api/auth/token",
            Endpoint::AuthRefreshToken => "/api/auth/refresh_token",
            Endpoint::AuthLogout => "/api/auth/logout",
            Endpoint::ListGroups => "/api/accounts/groups",
            Endpoint::RegisterGroup => "/api/accounts/groups",
            Endpoint::ListAccounts => "/api/accounts",
            Endpoint::RegisterAccount => "/api/accounts",
            Endpoint::GetAccount => "/api/accounts",
        };
        String::from_str(BASE_URL).concat(path)
    }
}

/// The address that lists accounts: all of them, or those of one group.
pub open spec fn list_accounts_address(id: Option<i32>) -> Seq<char> {
    match id {
        Some(id) => BASE_URL@ + "/api/accounts"@ + "?group_id="@ + int_digits(id as int),
        None => BASE_URL@ + "/api/accounts"@,
    }
}

/// The address of one account.
pub open spec fn get_account_address(id: i32) -> Seq<char> {
    BASE_URL@ + "/api/accounts"@ + "/"@ + int_digits(id as int)
}

/// The client of the HTTP interface, with the profile it acts for.
pub struct OpenPasswdApi {
    pub profile: Profile,
}

impl OpenPasswdApi {
    pub fn new(profile: Profile) -> (r: OpenPasswdApi)
        ensures
            r.profile == profile,
    {
        OpenPasswdApi { profile }
    }

    /// The address that lists accounts: all of them, or those of one group.
    pub fn list_accounts_url(id: &Option<i32>) -> (r: String)
        ensures
            r@ == list_accounts_address(*id),
    {
        let base = Endpoint::ListAccounts.url();
        match id {
            Some(id) => base.concat("?group_id=").concat(i32_to_string(*id).as_str()),
            None => base,
        }
    }

    /// The address of one account.
    pub fn get_account_url(id: i32) -> (r: String)
        ensures
            r@ == get_account_address(id),
    {
        Endpoint::GetAccount.url().concat("/").concat(i32_to_string(id).as_str())
    }

    /// Keeps the tokens of a successful login in the profile.
    pub fn keep_tokens(&mut self, token: AccessToken)
        ensures
            final(self).profile.spec_access_token() == Some(token.access_token@),
            final(self).profile.spec_refresh_token() == opt_view(token.refresh_token),
            final(self).profile.spec_email() == old(self).profile.spec_email(),
            final(self).profile.spec_device_name() == old(self).profile.spec_device_name(),
    {
        self.profile.set_tokens(Some(token.access_token), token.refresh_token);
    }
}

} // verus!
