//! What the HTTP boundary decides: where a presented token is found, which
//! token travels in a cookie, and what the cookie says.

use vstd::prelude::*;
use vstd::string::*;

use crate::auth::refresh_token::REFRESH_TOKEN_COOKIE_NAME;
use crate::decimal::{parse_i32, signed_decimal};
use crate::model::auth::{AccessToken, RefreshTokenType};
use crate::text::{int_digits, opt_view, str_eq};

verus! {

/// How long the refresh cookie lives, in seconds.
pub const REFRESH_COOKIE_MAX_AGE: i64 = 300;

/// The domain as a cookie shows it: without one leading dot.
pub open spec fn shown_domain(domain: Seq<char>) -> Seq<char> {
    if domain.len() > 0 && domain[0] == '.' {
        domain.subrange(1, domain.len() as int)
    } else {
        domain
    }
}

/// The `Set-Cookie` value of a cookie for every path of `domain` that is
/// hidden from scripts, sent over secure channels only and also across
/// sites, and that lives `max_age` seconds.
pub open spec fn cookie_text(
    name: Seq<char>,
    value: Seq<char>,
    domain: Seq<char>,
    max_age: i64,
) -> Seq<char> {
    name + "="@ + value + "; HttpOnly; SameSite=None; Secure; Path=/; Domain="@ + shown_domain(
        domain,
    ) + "; Max-Age="@ + int_digits(max_age as int)
}

/// `Cookie::build` of cookie with the attributes `domain`, `path("/")`,
/// `same_site(SameSite::None)`, `secure(true)`, `http_only(true)` and
/// `max_age`, then its `Display`: the name and the value as they are, then
/// the attributes in the order in which cookie writes them.
#[verifier::external_body]
fn set_cookie_text(name: &str, value: &str, domain: &str, max_age: i64) -> (r: String)
    ensures
        r@ == cookie_text(name@, value@, domain@, max_age),
{
    cookie::Cookie::build((name, value))
        .domain(domain)
        .path("/")
        .same_site(cookie::SameSite::None)
        .secure(true)
        .http_only(true)
        .max_age(cookie::time::Duration::seconds(max_age))
        .build()
        .to_string()
}

/// The `Set-Cookie` value that carries a refresh token.
pub fn get_refresh_token_cookie(refresh_token: &str, domain: &str) -> (r: String)
    ensures
        r@ == cookie_text(
            REFRESH_TOKEN_COOKIE_NAME@,
            refresh_token@,
            domain@,
            REFRESH_COOKIE_MAX_AGE,
        ),
{
    set_cookie_text(REFRESH_TOKEN_COOKIE_NAME, refresh_token, domain, REFRESH_COOKIE_MAX_AGE)
}

/// What answers a login or a refresh: the body, and the `Set-Cookie` value
/// if there is one. A refresh token for the cookie channel leaves the body
/// and travels in the cookie; any other stays where it is.
pub fn token_response(token: AccessToken, kind: Option<RefreshTokenType>, domain: &str) -> (r: (
    AccessToken,
    Option<String>,
))
    ensures
        r.0.access_token == token.access_token,
        r.0.token_type == token.token_type,
        match (kind, token.refresh_token) {
            (Some(RefreshTokenType::Cookie), Some(refresh)) => {
                &&& r.0.refresh_token is None
                &&& opt_view(r.1) == Some(
                    cookie_text(
                        REFRESH_TOKEN_COOKIE_NAME@,
                        refresh@,
                        domain@,
                        REFRESH_COOKIE_MAX_AGE,
                    ),
                )
            },
            _ => r.0.refresh_token == token.refresh_token && r.1 is None,
        },
{
    let AccessToken { access_token, token_type, refresh_token } = token;
    match (kind, refresh_token) {
        (Some(RefreshTokenType::Cookie), Some(refresh)) => {
            let cookie = get_refresh_token_cookie(refresh.as_str(), domain);
            (AccessToken { access_token, token_type, refresh_token: None }, Some(cookie))
        },
        (_, refresh_token) => (AccessToken { access_token, token_type, refresh_token }, None),
    }
}

/// The cookies that a `Cookie` value holds, in their order: the name and
/// the value of each, or nothing for a part that is no cookie.
pub uninterp spec fn cookie_pairs(header: Seq<char>) -> Seq<Option<(Seq<char>, Seq<char>)>>;

/// The name and the value of a cookie, as contracts see them.
pub open spec fn pair_view(pair: Option<(String, String)>) -> Option<(Seq<char>, Seq<char>)> {
    match pair {
        Some((name, value)) => Some((name@, value@)),
        None => None,
    }
}

/// The cookies of a list, as contracts see them.
pub open spec fn pair_views(pairs: Seq<Option<(String, String)>>) -> Seq<
    Option<(Seq<char>, Seq<char>)>,
> {
    Seq::new(pairs.len(), |i: int| pair_view(pairs[i]))
}

/// `Cookie::split_parse` of cookie, each item with its `name` and `value`:
/// the cookies of a `Cookie` value, or nothing for a part that cookie does
/// not parse.
#[verifier::external_body]
fn split_cookies(header: &str) -> (r: Vec<Option<(String, String)>>)
    ensures
        pair_views(r@) == cookie_pairs(header@),
{
    cookie::Cookie::split_parse(header)
        .map(|item| item.ok().map(|c| (c.name().to_owned(), c.value().to_owned())))
        .collect()
}

/// The value of the first cookie of that name.
pub open spec fn first_cookie(
    pairs: Seq<Option<(Seq<char>, Seq<char>)>>,
    name: Seq<char>,
) -> Option<Seq<char>>
    decreases pairs.len(),
{
    if pairs.len() == 0 {
        None
    } else {
        match pairs.first() {
            Some((n, v)) => if n == name {
                Some(v)
            } else {
                first_cookie(pairs.drop_first(), name)
            },
            None => first_cookie(pairs.drop_first(), name),
        }
    }
}

/// The value of the first cookie of that name in a list of cookies.
pub fn find_cookie(pairs: &Vec<Option<(String, String)>>, name: &str) -> (r: Option<String>)
    ensures
        opt_view(r) == first_cookie(pair_views(pairs@), name@),
{
    let mut i: usize = 0;
    let ghost views = pair_views(pairs@);
    assert(views.skip(0) =~= views);
    while i < pairs.len()
        invariant
            0 <= i <= pairs@.len(),
            views == pair_views(pairs@),
            first_cookie(views, name@) == first_cookie(views.skip(i as int), name@),
        decreases pairs@.len() - i,
    {
        let ghost rest = views.skip(i as int);
        assert(rest.first() == pair_view(pairs@[i as int]));
        assert(rest.drop_first() =~= views.skip(i + 1));
        match &pairs[i] {
            Some((n, v)) => {
                if str_eq(n.as_str(), name) {
                    return Some(v.clone());
                }
            },
            None => {},
        }
        i = i + 1;
    }
    None
}

/// The refresh token that a `Cookie` value carries: the value of its first
/// cookie named `REFRESH_TOKEN`.
pub fn refresh_token_cookie(header: &str) -> (r: Option<String>)
    ensures
        opt_view(r) == first_cookie(cookie_pairs(header@), REFRESH_TOKEN_COOKIE_NAME@),
{
    let pairs = split_cookies(header);
    find_cookie(&pairs, REFRESH_TOKEN_COOKIE_NAME)
}

/// Whether a character is the given letter, in either case.
pub open spec fn is_letter(c: char, lower: char, upper: char) -> bool {
    c == lower || c == upper
}

/// Whether a value begins with the scheme `Bearer`, its letters in either
/// case, and one space.
pub open spec fn begins_with_bearer(value: Seq<char>) -> bool {
    &&& value.len() >= 7
    &&& is_letter(value[0], 'b', 'B')
    &&& is_letter(value[1], 'e', 'E')
    &&& is_letter(value[2], 'a', 'A')
    &&& is_letter(value[3], 'r', 'R')
    &&& is_letter(value[4], 'e', 'E')
    &&& is_letter(value[5], 'r', 'R')
    &&& value[6] == ' '
}

/// The token that an `Authorization` value carries: what follows the
/// scheme `Bearer` and one space, where the value begins so.
pub open spec fn bearer_of(authorization: Seq<char>) -> Option<Seq<char>> {
    if begins_with_bearer(authorization) {
        Some(authorization.subrange(7, authorization.len() as int))
    } else {
        None
    }
}

/// Whether a character is the given letter, in either case.
fn letter(c: char, lower: char, upper: char) -> (r: bool)
    ensures
        r == is_letter(c, lower, upper),
{
    c == lower || c == upper
}

/// The bearer token of an `Authorization` value. The scheme is read in
/// either case, as HTTP asks.
pub fn bearer_token(authorization: &str) -> (r: Option<String>)
    ensures
        opt_view(r) == bearer_of(authorization@),
{
    let n = authorization.unicode_len();
    if n < 7 {
        return None;
    }
    let scheme = authorization.substring_char(0, 7);
    assert(forall|i: int| 0 <= i < 7 ==> scheme@[i] == authorization@[i]);
    if letter(scheme.get_char(0), 'b', 'B') && letter(scheme.get_char(1), 'e', 'E') && letter(
        scheme.get_char(2),
        'a',
        'A',
    ) && letter(scheme.get_char(3), 'r', 'R') && letter(scheme.get_char(4), 'e', 'E') && letter(
        scheme.get_char(5),
        'r',
        'R',
    ) && scheme.get_char(6) == ' ' {
        Some(authorization.substring_char(7, n).to_owned())
    } else {
        None
    }
}

/// The group that a query asks for: the value of its parameter, where
/// there is one and it spells an `i32`.
pub open spec fn group_id_of(value: Option<Seq<char>>) -> Option<i32> {
    match value {
        Some(text) => match signed_decimal(text) {
            Some(v) => if i32::MIN <= v <= i32::MAX {
                Some(v as i32)
            } else {
                None
            },
            None => None,
        },
        None => None,
    }
}

/// The group that a query asks for.
pub fn parse_group_id(value: Option<&str>) -> (r: Option<i32>)
    ensures
        r == group_id_of(
            match value {
                Some(text) => Some(text@),
                None => None,
            },
        ),
{
    match value {
        Some(text) => parse_i32(text),
        None => None,
    }
}

} // verus!
