//! Mail as the services compose it. Sending is left to the caller.

use vstd::prelude::*;
use vstd::string::*;

use crate::decimal::parse_u16;
use crate::settings::configured_number;
use crate::text::{opt_clone, opt_view, str_eq};

verus! {

/// A mailbox: an address, and the name shown with it.
#[derive(Debug)]
pub struct EmailAddress {
    pub name: Option<String>,
    pub email: String,
}

impl EmailAddress {
    pub fn new(name: Option<&str>, email: &str) -> (r: EmailAddress)
        ensures
            r.email@ == email@,
            match name {
                Some(n) => r.name is Some && r.name.unwrap()@ == n@,
                None => r.name is None,
            },
    {
        let name = match name {
            Some(n) => Some(n.to_owned()),
            None => None,
        };
        EmailAddress { name, email: email.to_owned() }
    }
}

impl Clone for EmailAddress {
    fn clone(&self) -> (r: Self)
        ensures
            r == *self,
    {
        EmailAddress { name: opt_clone(&self.name), email: self.email.clone() }
    }
}

/// The body of a message.
#[derive(Debug)]
pub enum MessageBody {
    Text(String),
    Html(String),
}

/// A message ready to be sent.
#[derive(Debug)]
pub struct Mail {
    pub from: EmailAddress,
    pub to: EmailAddress,
    pub subject: String,
    pub body: MessageBody,
}

/// The name under which the service writes.
pub open spec fn system_name() -> Seq<char> {
    "OpenPasswd"@
}

/// The address from which the service writes.
pub open spec fn system_address() -> Seq<char> {
    "openpasswd@gmail.com"@
}

/// Whether `mail` is the password-recovery notice that carries `token` to
/// the user of that name and address.
pub open spec fn is_recovery_mail(
    mail: Mail,
    name: Seq<char>,
    email: Seq<char>,
    token: Seq<char>,
) -> bool {
    &&& opt_view(mail.from.name) == Some(system_name())
    &&& mail.from.email@ == system_address()
    &&& opt_view(mail.to.name) == Some(name)
    &&& mail.to.email@ == email
    &&& mail.subject@ == "Password recovery"@
    &&& mail.body matches MessageBody::Text(text) && text@ == "Password recovery: "@ + token
}

/// The composer of the service's mail.
#[derive(Clone, Copy, Debug)]
pub struct MailService {}

impl MailService {
    /// The mailbox of the service itself.
    pub fn system_mailbox() -> (r: EmailAddress)
        ensures
            opt_view(r.name) == Some(system_name()),
            r.email@ == system_address(),
    {
        EmailAddress::new(Some("OpenPasswd"), "openpasswd@gmail.com")
    }

    /// The notice that carries a password-recovery secret to a user.
    pub fn password_recovery_mail(name: &str, email: &str, token: &str) -> (r: Mail)
        ensures
            is_recovery_mail(r, name@, email@, token@),
    {
        Mail {
            from: MailService::system_mailbox(),
            to: EmailAddress::new(Some(name), email),
            subject: String::from_str("Password recovery"),
            body: MessageBody::Text(String::from_str("Password recovery: ").concat(token)),
        }
    }
}

/// The port for mail submission over TLS, used unless another is
/// configured.
pub const SUBMISSIONS_PORT: u16 = 465;

/// Why no mail can be sent.
#[derive(Debug)]
pub enum MailError {
    MissingSMTPConfiguration(String),
    SmtpError(String),
    EmailError(String),
}

/// How to reach the mail server.
#[derive(Debug)]
pub struct SmtpSettings {
    pub server: String,
    pub port: u16,
    pub tls: bool,
    pub credentials: Option<(String, String)>,
}

/// The settings that the given values configure: server and port must both
/// be there; a port that is no `u16` stands for the submission port; TLS is
/// on unless it is set to `false`; the credentials count only as a pair.
pub open spec fn configured_smtp(
    server: Option<String>,
    port: Option<String>,
    tls: Option<String>,
    username: Option<String>,
    password: Option<String>,
) -> Option<SmtpSettings> {
    match (server, port) {
        (Some(server), Some(port)) => Some(
            SmtpSettings {
                server,
                port: match configured_number(Some(port@), u16::MAX as int) {
                    Some(n) => n as u16,
                    None => SUBMISSIONS_PORT,
                },
                tls: opt_view(tls) != Some("false"@),
                credentials: match (username, password) {
                    (Some(u), Some(p)) => Some((u, p)),
                    _ => None,
                },
            },
        ),
        _ => None,
    }
}

impl SmtpSettings {
    /// The settings that the given values configure.
    pub fn from_values(
        server: Option<String>,
        port: Option<String>,
        tls: Option<String>,
        username: Option<String>,
        password: Option<String>,
    ) -> (r: Result<SmtpSettings, MailError>)
        ensures
            match r {
                Ok(settings) => configured_smtp(server, port, tls, username, password) == Some(
                    settings,
                ),
                Err(e) => {
                    &&& configured_smtp(server, port, tls, username, password) is None
                    &&& e matches MailError::MissingSMTPConfiguration(text)
                    &&& e->MissingSMTPConfiguration_0@
                        == "Missing SMTP_SERVER and SMTP_PORT configuration"@
                },
            },
    {
        let (server, port) = match (server, port) {
            (Some(server), Some(port)) => {
                let number = match parse_u16(port.as_str()) {
                    Some(n) => n,
                    None => SUBMISSIONS_PORT,
                };
                (server, number)
            },
            _ => {
                return Err(
                    MailError::MissingSMTPConfiguration(
                        String::from_str("Missing SMTP_SERVER and SMTP_PORT configuration"),
                    ),
                );
            },
        };
        let tls = match &tls {
            Some(text) => !str_eq(text.as_str(), "false"),
            None => true,
        };
        let credentials = match (username, password) {
            (Some(u), Some(p)) => Some((u, p)),
            _ => None,
        };
        Ok(SmtpSettings { server, port, tls, credentials })
    }
}

} // verus!
