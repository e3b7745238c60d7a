//! The rules that a request must meet before a service sees it, and how a
//! request that breaks them is answered.

use vstd::prelude::*;
use vstd::string::*;

use crate::model::accounts::{AccountGroupRegister, AccountRegister};
use crate::model::auth::{
    LoginRequest, PasswordRecoveryFinish, PasswordRecoveryStart, UserRegister,
};
use crate::model::error::ErrorResponse;

verus! {

/// Whether a text is an e-mail address as HTML5 forms take one.
pub uninterp spec fn valid_email(text: Seq<char>) -> bool;

/// `ValidateEmail::validate_email` of validator on a string slice: whether
/// the text is an e-mail address. The empty text is none.
#[verifier::external_body]
fn validate_email(text: &str) -> (r: bool)
    ensures
        r == valid_email(text@),
        text@.len() == 0 ==> !r,
{
    ::validator::ValidateEmail::validate_email(&text)
}

/// The least group id that a request may name.
pub const MIN_GROUP_ID: i32 = 0;

/// The largest group id that a request may name.
pub const MAX_GROUP_ID: i32 = 100;

/// A field that breaks a rule, and the sentence that says so.
#[derive(Debug)]
pub struct FieldError {
    pub field: String,
    pub message: String,
}

/// A broken rule, as contracts see it: the field and the sentence.
pub type Problem = (Seq<char>, Seq<char>);

/// The broken rules that a list of field errors reports.
pub open spec fn problems_of(errors: Seq<FieldError>) -> Seq<Problem> {
    Seq::new(errors.len(), |i: int| (errors[i].field@, errors[i].message@))
}

/// The sentence for a field whose rule has none of its own.
pub open spec fn default_message(field: Seq<char>) -> Seq<char> {
    "Field "@ + field + " has an invalid value"@
}

/// The report of one rule: the problem where the rule is broken, and
/// nothing where it is kept.
pub open spec fn problem_if(broken: bool, field: Seq<char>, message: Seq<char>) -> Seq<Problem> {
    if broken {
        seq![(field, message)]
    } else {
        Seq::empty()
    }
}

/// Adds the report of one rule.
fn report(errors: &mut Vec<FieldError>, broken: bool, field: &str, message: String)
    ensures
        problems_of(final(errors)@) == problems_of(old(errors)@) + problem_if(
            broken,
            field@,
            message@,
        ),
{
    if broken {
        errors.push(FieldError { field: field.to_owned(), message });
    }
    assert(problems_of(errors@) =~= problems_of(old(errors)@) + problem_if(
        broken,
        field@,
        message@,
    ));
}

/// The sentence for a field whose rule has none of its own.
fn default_text(field: &str) -> (r: String)
    ensures
        r@ == default_message(field@),
{
    String::from_str("Field ").concat(field).concat(" has an invalid value")
}

/// A request with rules of its own.
pub trait Validate {
    /// The rules that the request breaks, in the order of its fields.
    spec fn problems(&self) -> Seq<Problem>;

    /// The rules that the request breaks: none where it is valid.
    fn validate(&self) -> (r: Vec<FieldError>)
        ensures
            problems_of(r@) == self.problems(),
    ;
}

impl Validate for LoginRequest {
    open spec fn problems(&self) -> Seq<Problem> {
        problem_if(
            self.email@.len() < 1 || !valid_email(self.email@),
            "email"@,
            "Email is invalid"@,
        ) + problem_if(
            self.password@.len() < 1,
            "password"@,
            "Password is invalid"@,
        )
    }

    fn validate(&self) -> (r: Vec<FieldError>) {
        let mut errors: Vec<FieldError> = Vec::new();
        assert(problems_of(errors@) =~= Seq::<Problem>::empty());
        report(
            &mut errors,
            !validate_email(self.email.as_str()),
            "email",
            String::from_str("Email is invalid"),
        );
        report(
            &mut errors,
            self.password.as_str().unicode_len() < 1,
            "password",
            String::from_str("Password is invalid"),
        );
        errors
    }
}

impl Validate for UserRegister {
    open spec fn problems(&self) -> Seq<Problem> {
        problem_if(self.name@.len() < 1, "name"@, "Name is invalid"@) + problem_if(
            self.email@.len() < 1 || !valid_email(self.email@),
            "email"@,
            "Email is invalid"@,
        ) + problem_if(self.password@.len() < 1, "password"@, "Password is invalid"@)
    }

    fn validate(&self) -> (r: Vec<FieldError>) {
        let mut errors: Vec<FieldError> = Vec::new();
        assert(problems_of(errors@) =~= Seq::<Problem>::empty());
        report(
            &mut errors,
            self.name.as_str().unicode_len() < 1,
            "name",
            String::from_str("Name is invalid"),
        );
        report(
            &mut errors,
            !validate_email(self.email.as_str()),
            "email",
            String::from_str("Email is invalid"),
        );
        report(
            &mut errors,
            self.password.as_str().unicode_len() < 1,
            "password",
            String::from_str("Password is invalid"),
        );
        errors
    }
}

impl Validate for PasswordRecoveryStart {
    open spec fn problems(&self) -> Seq<Problem> {
        problem_if(
            self.email@.len() < 1 || !valid_email(self.email@),
            "email"@,
            "Email is invalid"@,
        )
    }

    fn validate(&self) -> (r: Vec<FieldError>) {
        let mut errors: Vec<FieldError> = Vec::new();
        assert(problems_of(errors@) =~= Seq::<Problem>::empty());
        report(
            &mut errors,
            !validate_email(self.email.as_str()),
            "email",
            String::from_str("Email is invalid"),
        );
        errors
    }
}

impl Validate for PasswordRecoveryFinish {
    open spec fn problems(&self) -> Seq<Problem> {
        problem_if(self.token@.len() < 1, "token"@, "Token is invalid"@) + problem_if(
            self.password@.len() < 1,
            "password"@,
            "Password is invalid"@,
        )
    }

    fn validate(&self) -> (r: Vec<FieldError>) {
        let mut errors: Vec<FieldError> = Vec::new();
        assert(problems_of(errors@) =~= Seq::<Problem>::empty());
        report(
            &mut errors,
            self.token.as_str().unicode_len() < 1,
            "token",
            String::from_str("Token is invalid"),
        );
        report(
            &mut errors,
            self.password.as_str().unicode_len() < 1,
            "password",
            String::from_str("Password is invalid"),
        );
        errors
    }
}

impl Validate for AccountGroupRegister {
    open spec fn problems(&self) -> Seq<Problem> {
        problem_if(self.name@.len() < 1, "name"@, default_message("name"@))
    }

    fn validate(&self) -> (r: Vec<FieldError>) {
        let mut errors: Vec<FieldError> = Vec::new();
        assert(problems_of(errors@) =~= Seq::<Problem>::empty());
        report(&mut errors, self.name.as_str().unicode_len() < 1, "name", default_text("name"));
        errors
    }
}

impl Validate for AccountRegister {
    open spec fn problems(&self) -> Seq<Problem> {
        problem_if(self.name@.len() < 1, "name"@, default_message("name"@)) + problem_if(
            !(MIN_GROUP_ID <= self.group_id <= MAX_GROUP_ID),
            "group_id"@,
            default_message("group_id"@),
        ) + problem_if(self.username@.len() < 1, "username"@, default_message("username"@))
            + problem_if(self.password@.len() < 1, "password"@, default_message("password"@))
    }

    fn validate(&self) -> (r: Vec<FieldError>) {
        let mut errors: Vec<FieldError> = Vec::new();
        assert(problems_of(errors@) =~= Seq::<Problem>::empty());
        report(&mut errors, self.name.as_str().unicode_len() < 1, "name", default_text("name"));
        report(
            &mut errors,
            self.group_id < MIN_GROUP_ID || self.group_id > MAX_GROUP_ID,
            "group_id",
            default_text("group_id"),
        );
        report(
            &mut errors,
            self.username.as_str().unicode_len() < 1,
            "username",
            default_text("username"),
        );
        report(
            &mut errors,
            self.password.as_str().unicode_len() < 1,
            "password",
            default_text("password"),
        );
        errors
    }
}

/// A request that breaks none of its rules.
#[derive(Debug)]
pub struct ValidatedJson<T>(pub T);

/// Why a request never reached a service.
#[derive(Debug)]
pub enum ServerError {
    /// The request breaks rules of its own.
    ValidationError(Vec<FieldError>),
    /// The request does not say that it is JSON.
    MissingJsonContentType,
    /// The request is no JSON, or not the JSON asked for.
    InvalidJson,
}

/// The entries that report a refused request: one for each broken rule, or
/// one message.
pub open spec fn refusal_entries(error: ServerError) -> Seq<Problem> {
    match error {
        ServerError::ValidationError(errors) => problems_of(errors@),
        ServerError::MissingJsonContentType => seq![
            ("message"@, "Expected request with `Content-Type: application/json`"@),
        ],
        ServerError::InvalidJson => seq![("message"@, "Invalid JSON format"@)],
    }
}

/// The entries of an error body, as contracts see them.
pub open spec fn entries_of(body: ErrorResponse<String>) -> Seq<Problem> {
    Seq::new(body.error@.len(), |i: int| (body.error@[i].0@, body.error@[i].1@))
}

impl<T: Validate> ValidatedJson<T> {
    /// Admits a request that was read from JSON, if it breaks none of its
    /// rules.
    pub fn new(value: T) -> (r: Result<ValidatedJson<T>, ServerError>)
        ensures
            match r {
                Ok(valid) => value.problems().len() == 0 && valid.0 == value,
                Err(e) => value.problems().len() > 0 && refusal_entries(e) == value.problems(),
            },
    {
        let errors = value.validate();
        if errors.len() == 0 {
            Ok(ValidatedJson(value))
        } else {
            Err(ServerError::ValidationError(errors))
        }
    }
}

impl ServerError {
    /// The status and body of the response that refuses the request: a bad
    /// request, with an entry for each broken rule or with one message.
    pub fn into_response(self) -> (r: (u16, ErrorResponse<String>))
        ensures
            r.0 == 400,
            entries_of(r.1) == refusal_entries(self),
    {
        match self {
            ServerError::ValidationError(errors) => {
                let ghost reported = problems_of(errors@);
                let mut entries: Vec<(String, String)> = Vec::new();
                let mut i: usize = 0;
                while i < errors.len()
                    invariant
                        0 <= i <= errors@.len(),
                        entries@.len() == i,
                        forall|j: int|
                            0 <= j < i ==> (#[trigger] entries@[j]).0@ == errors@[j].field@
                                && entries@[j].1@ == errors@[j].message@,
                    decreases errors@.len() - i,
                {
                    entries.push((errors[i].field.clone(), errors[i].message.clone()));
                    i = i + 1;
                }
                let body = ErrorResponse { error: entries };
                assert(entries_of(body) =~= problems_of(errors@));
                (400, body)
            },
            ServerError::MissingJsonContentType => {
                let body = ErrorResponse::message(
                    String::from_str("Expected request with `Content-Type: application/json`"),
                );
                assert(entries_of(body) =~= refusal_entries(self));
                (400, body)
            },
            ServerError::InvalidJson => {
                let body = ErrorResponse::message(String::from_str("Invalid JSON format"));
                assert(entries_of(body) =~= refusal_entries(self));
                (400, body)
            },
        }
    }
}

} // verus!
