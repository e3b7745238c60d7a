//! What the client remembers between runs.

use vstd::prelude::*;
use vstd::string::*;

use crate::text::opt_view;

verus! {

/// The remembered address, device name and tokens.
pub struct Profile {
    email: Option<String>,
    device_name: Option<String>,
    access_token: Option<String>,
    refresh_token: Option<String>,
}

/// An optional string as a slice.
fn as_deref(s: &Option<String>) -> (r: Option<&str>)
    ensures
        match r {
            Some(t) => opt_view(*s) == Some(t@),
            None => *s is None,
        },
{
    match s {
        Some(t) => Some(t.as_str()),
        None => None,
    }
}

impl Profile {
    /// The remembered address.
    pub closed spec fn spec_email(&self) -> Option<Seq<char>> {
        opt_view(self.email)
    }

    /// The remembered device name.
    pub closed spec fn spec_device_name(&self) -> Option<Seq<char>> {
        opt_view(self.device_name)
    }

    /// The remembered access token.
    pub closed spec fn spec_access_token(&self) -> Option<Seq<char>> {
        opt_view(self.access_token)
    }

    /// The remembered refresh token.
    pub closed spec fn spec_refresh_token(&self) -> Option<Seq<char>> {
        opt_view(self.refresh_token)
    }

    /// A profile that remembers nothing.
    pub fn new() -> (r: Profile)
        ensures
            r.spec_email() is None,
            r.spec_device_name() is None,
            r.spec_access_token() is None,
            r.spec_refresh_token() is None,
    {
        Profile { email: None, device_name: None, access_token: None, refresh_token: None }
    }

    /// A profile that remembers what is given.
    pub fn from_parts(
        email: Option<String>,
        device_name: Option<String>,
        access_token: Option<String>,
        refresh_token: Option<String>,
    ) -> (r: Profile)
        ensures
            r.spec_email() == opt_view(email),
            r.spec_device_name() == opt_view(device_name),
            r.spec_access_token() == opt_view(access_token),
            r.spec_refresh_token() == opt_view(refresh_token),
    {
        Profile { email, device_name, access_token, refresh_token }
    }

    /// Whether the client must log in before it can ask for anything: that
    /// is where it remembers no access token.
    pub fn needs_login(&self) -> (r: bool)
        ensures
            r == (self.spec_access_token() is None),
    {
        self.access_token.is_none()
    }

    pub fn set_email(&mut self, email: String)
        ensures
            final(self).spec_email() == Some(email@),
            final(self).spec_device_name() == old(self).spec_device_name(),
            final(self).spec_access_token() == old(self).spec_access_token(),
            final(self).spec_refresh_token() == old(self).spec_refresh_token(),
    {
        self.email = Some(email);
    }

    pub fn email(&self) -> (r: Option<&str>)
        ensures
            match r {
                Some(t) => self.spec_email() == Some(t@),
                None => self.spec_email() is None,
            },
    {
        as_deref(&self.email)
    }

    pub fn set_device_name(&mut self, device_name: String)
        ensures
            final(self).spec_device_name() == Some(device_name@),
            final(self).spec_email() == old(self).spec_email(),
            final(self).spec_access_token() == old(self).spec_access_token(),
            final(self).spec_refresh_token() == old(self).spec_refresh_token(),
    {
        self.device_name = Some(device_name);
    }

    pub fn device_name(&self) -> (r: Option<&str>)
        ensures
            match r {
                Some(t) => self.spec_device_name() == Some(t@),
                None => self.spec_device_name() is None,
            },
    {
        as_deref(&self.device_name)
    }

    pub fn set_tokens(&mut self, access_token: Option<String>, refresh_token: Option<String>)
        ensures
            final(self).spec_access_token() == opt_view(access_token),
            final(self).spec_refresh_token() == opt_view(refresh_token),
            final(self).spec_email() == old(self).spec_email(),
            final(self).spec_device_name() == old(self).spec_device_name(),
    {
        self.access_token = access_token;
        self.refresh_token = refresh_token;
    }

    pub fn set_access_token(&mut self, access_token: String)
        ensures
            final(self).spec_access_token() == Some(access_token@),
            final(self).spec_refresh_token() == old(self).spec_refresh_token(),
            final(self).spec_email() == old(self).spec_email(),
            final(self).spec_device_name() == old(self).spec_device_name(),
    {
        self.access_token = Some(access_token);
    }

    pub fn access_token(&self) -> (r: Option<&str>)
        ensures
            match r {
                Some(t) => self.spec_access_token() == Some(t@),
                None => self.spec_access_token() is None,
            },
    {
        as_deref(&self.access_token)
    }

    pub fn set_refresh_token(&mut self, refresh_token: String)
        ensures
            final(self).spec_refresh_token() == Some(refresh_token@),
            final(self).spec_access_token() == old(self).spec_access_token(),
            final(self).spec_email() == old(self).spec_email(),
            final(self).spec_device_name() == old(self).spec_device_name(),
    {
        self.refresh_token = Some(refresh_token);
    }

    pub fn refresh_token(&self) -> (r: Option<&str>)
        ensures
            match r {
                Some(t) => self.spec_refresh_token() == Some(t@),
                None => self.spec_refresh_token() is None,
            },
    {
        as_deref(&self.refresh_token)
    }
}

} // verus!
