//! The claims of a refresh token.

use vstd::prelude::*;
use vstd::string::*;
use vstd::utf8::*;

use crate::auth::auth_error::AuthError;
use crate::auth::claims::{
    access_claims, access_fields, lemma_claim_names_distinct, text_claim, Claims, ClaimsView,
};
use crate::auth::token::{
    claims_map, decode_token, encodable, field, hs512_claims, hs512_token, sign_token, ClaimEntry,
    ClaimSpec, ClaimValue, ClaimsMap,
};
use crate::model::auth::RefreshTokenType;
use crate::text::{i32_to_string, int_digits, opt_clone, opt_view, str_eq};

verus! {

/// The name of the cookie that carries a refresh token.
pub const REFRESH_TOKEN_COOKIE_NAME: &'static str = "REFRESH_TOKEN";

/// What a refresh token states: the claims of an access token, and the
/// channel through which it must be presented.
#[derive(Debug)]
pub struct RefreshTokenClaims {
    pub jti: String,
    pub sub: i32,
    pub device: Option<String>,
    pub exp: i64,
    pub refresh_token_type: RefreshTokenType,
}

/// The claims of a refresh token, as contracts see them.
pub struct RefreshTokenClaimsView {
    pub jti: Seq<char>,
    pub sub: i32,
    pub device: Option<Seq<char>>,
    pub exp: i64,
    pub refresh_token_type: RefreshTokenType,
}

impl View for RefreshTokenClaims {
    type V = RefreshTokenClaimsView;

    open spec fn view(&self) -> RefreshTokenClaimsView {
        RefreshTokenClaimsView {
            jti: self.jti@,
            sub: self.sub,
            device: opt_view(self.device),
            exp: self.exp,
            refresh_token_type: self.refresh_token_type,
        }
    }
}

impl RefreshTokenClaimsView {
    /// The part that a refresh token shares with an access token.
    pub open spec fn base(self) -> ClaimsView {
        ClaimsView { jti: self.jti, sub: self.sub, device: self.device, exp: self.exp }
    }
}

/// The word that names a channel in a token.
pub open spec fn channel_name(t: RefreshTokenType) -> Seq<char> {
    match t {
        RefreshTokenType::Cookie => "Cookie"@,
        RefreshTokenType::Token => "Token"@,
    }
}

/// The channel that a word names: either channel's name, with or without
/// its capital.
pub open spec fn channel_of(word: Seq<char>) -> Option<RefreshTokenType> {
    if word == "Cookie"@ || word == "cookie"@ {
        Some(RefreshTokenType::Cookie)
    } else if word == "Token"@ || word == "token"@ {
        Some(RefreshTokenType::Token)
    } else {
        None
    }
}

/// The object that carries the claims of a refresh token.
pub open spec fn refresh_fields(c: RefreshTokenClaimsView) -> ClaimsMap {
    access_fields(c.base()).insert(
        "refresh_token_type"@,
        ClaimSpec::Text(channel_name(c.refresh_token_type)),
    )
}

/// The refresh claims that an object carries: access claims, and a text
/// `refresh_token_type` that names a channel.
pub open spec fn refresh_claims(m: ClaimsMap) -> Option<RefreshTokenClaimsView> {
    match (access_claims(m), field(m, "refresh_token_type"@)) {
        (Some(c), Some(ClaimSpec::Text(word))) => match channel_of(word) {
            Some(t) => Some(
                RefreshTokenClaimsView {
                    jti: c.jti,
                    sub: c.sub,
                    device: c.device,
                    exp: c.exp,
                    refresh_token_type: t,
                },
            ),
            None => None,
        },
        _ => None,
    }
}

/// Each channel's name names that channel.
pub proof fn lemma_channel_round_trip(t: RefreshTokenType)
    ensures
        channel_of(channel_name(t)) == Some(t),
{
    reveal_strlit("Cookie");
    reveal_strlit("cookie");
    reveal_strlit("Token");
    reveal_strlit("token");
    assert("Token"@.len() == 5);
    assert("Cookie"@.len() == 6);
    assert("cookie"@.len() == 6);
}

/// Reading the object of some refresh claims gives those claims back.
pub proof fn lemma_refresh_claims_round_trip(c: RefreshTokenClaimsView)
    ensures
        refresh_claims(refresh_fields(c)) == Some(c),
{
    lemma_claim_names_distinct();
    lemma_channel_round_trip(c.refresh_token_type);
}

/// The refresh claims that `token` carries, where its signature verifies
/// under `secret` and its object reads as refresh claims. Expiry and channel
/// play no part here.
pub open spec fn signed_refresh_claims(token: Seq<char>, secret: Seq<char>) -> Option<
    RefreshTokenClaimsView,
> {
    match hs512_claims(token, encode_utf8(secret)) {
        Some(m) => refresh_claims(m),
        None => None,
    }
}

/// The refresh claims that `token` proves when it arrives through the
/// channel `presented` at the instant `now`: those it carries, unless they
/// have expired or name the other channel.
pub open spec fn valid_refresh_claims(
    token: Seq<char>,
    secret: Seq<char>,
    now: i64,
    presented: RefreshTokenType,
) -> Option<RefreshTokenClaimsView> {
    match signed_refresh_claims(token, secret) {
        Some(c) => if c.exp < now || c.refresh_token_type != presented {
            None
        } else {
            Some(c)
        },
        None => None,
    }
}

/// A refresh token that arrives through another channel than the one it
/// names proves nothing.
pub proof fn lemma_wrong_channel_is_rejected(
    token: Seq<char>,
    secret: Seq<char>,
    now: i64,
    presented: RefreshTokenType,
)
    requires
        signed_refresh_claims(token, secret) matches Some(c) && c.refresh_token_type != presented,
    ensures
        valid_refresh_claims(token, secret, now, presented) is None,
{
}

/// A token that carries access claims and no more is no refresh token,
/// under whichever secret it carries them: it names no channel.
pub proof fn lemma_access_token_is_no_refresh_token(
    token: Seq<char>,
    secret: Seq<char>,
    claims: ClaimsView,
    now: i64,
    presented: RefreshTokenType,
)
    requires
        hs512_claims(token, encode_utf8(secret)) == Some(access_fields(claims)),
    ensures
        signed_refresh_claims(token, secret) is None,
        valid_refresh_claims(token, secret, now, presented) is None,
{
    lemma_claim_names_distinct();
}

/// A refresh token whose claims have expired proves nothing.
pub proof fn lemma_expired_refresh_token_is_invalid(
    token: Seq<char>,
    secret: Seq<char>,
    now: i64,
    presented: RefreshTokenType,
)
    requires
        signed_refresh_claims(token, secret) matches Some(c) && c.exp < now,
    ensures
        valid_refresh_claims(token, secret, now, presented) is None,
{
}

/// The key under which the revocation store records a refresh token.
pub open spec fn refresh_key(sub: i32, jti: Seq<char>) -> Seq<char> {
    "refresh_token:"@ + int_digits(sub as int) + ":"@ + jti
}

/// The channel that a word names.
pub fn parse_channel(word: &str) -> (r: Option<RefreshTokenType>)
    ensures
        r == channel_of(word@),
{
    if str_eq(word, "Cookie") || str_eq(word, "cookie") {
        Some(RefreshTokenType::Cookie)
    } else if str_eq(word, "Token") || str_eq(word, "token") {
        Some(RefreshTokenType::Token)
    } else {
        None
    }
}

/// The transport of a refresh token in a request: the cookie wins over the
/// body.
pub fn presented_refresh_token(cookie: Option<String>, body: Option<String>) -> (r: Option<
    (String, RefreshTokenType),
>)
    ensures
        r == match (cookie, body) {
            (Some(c), _) => Some((c, RefreshTokenType::Cookie)),
            (None, Some(b)) => Some((b, RefreshTokenType::Token)),
            (None, None) => None,
        },
{
    match cookie {
        Some(c) => Some((c, RefreshTokenType::Cookie)),
        None => match body {
            Some(b) => Some((b, RefreshTokenType::Token)),
            None => None,
        },
    }
}

impl Clone for RefreshTokenClaims {
    fn clone(&self) -> (r: Self)
        ensures
            r == *self,
    {
        RefreshTokenClaims {
            jti: self.jti.clone(),
            sub: self.sub,
            device: opt_clone(&self.device),
            exp: self.exp,
            refresh_token_type: self.refresh_token_type,
        }
    }
}

impl RefreshTokenClaims {
    /// The word that names the channel of these claims.
    pub fn channel_word(&self) -> (r: String)
        ensures
            r@ == channel_name(self.refresh_token_type),
    {
        match self.refresh_token_type {
            RefreshTokenType::Cookie => String::from_str("Cookie"),
            RefreshTokenType::Token => String::from_str("Token"),
        }
    }

    /// The entries that carry these claims.
    pub fn to_entries(&self) -> (r: Vec<ClaimEntry>)
        ensures
            encodable(r@),
            claims_map(r@) == refresh_fields(self@),
    {
        let base = Claims {
            jti: self.jti.clone(),
            sub: self.sub,
            device: opt_clone(&self.device),
            exp: self.exp,
        };
        let mut entries = base.to_entries();
        let ghost before = entries@;
        entries.push(
            ClaimEntry {
                name: String::from_str("refresh_token_type"),
                value: ClaimValue::Text(self.channel_word()),
            },
        );
        proof {
            assert(entries@.drop_last() =~= before);
            assert(base@ == self@.base());
        }
        entries
    }

    /// The refresh claims that the entries carry.
    pub fn from_entries(entries: &Vec<ClaimEntry>) -> (r: Option<RefreshTokenClaims>)
        ensures
            match r {
                Some(c) => refresh_claims(claims_map(entries@)) == Some(c@),
                None => refresh_claims(claims_map(entries@)) is None,
            },
    {
        let base = match Claims::from_entries(entries) {
            Some(base) => base,
            None => {
                return None;
            },
        };
        let word = match text_claim(entries, "refresh_token_type") {
            Some(word) => word,
            None => {
                return None;
            },
        };
        match parse_channel(word.as_str()) {
            Some(t) => Some(
                RefreshTokenClaims {
                    jti: base.jti,
                    sub: base.sub,
                    device: base.device,
                    exp: base.exp,
                    refresh_token_type: t,
                },
            ),
            None => None,
        }
    }

    /// Signs these claims under `secret`. It always succeeds. The token
    /// carries exactly these claims, and proves them through their own
    /// channel at every instant up to their expiry.
    pub fn sign(&self, secret: &str) -> (r: Result<String, AuthError>)
        ensures
            r is Ok,
            r matches Ok(t) ==> {
                &&& t@ == hs512_token(refresh_fields(self@), encode_utf8(secret@))
                &&& signed_refresh_claims(t@, secret@) == Some(self@)
                &&& forall|now: i64|
                    now <= self.exp ==> #[trigger] valid_refresh_claims(
                        t@,
                        secret@,
                        now,
                        self.refresh_token_type,
                    ) == Some(self@)
            },
    {
        let entries = self.to_entries();
        proof {
            lemma_refresh_claims_round_trip(self@);
        }
        match sign_token(&entries, secret) {
            Some(t) => Ok(t),
            None => Err(AuthError::TokenCreation),
        }
    }

    /// Checks a token that arrived through the channel `presented` at the
    /// instant `now`: its signature under `secret`, the shape of its claims,
    /// its expiry, and that it names the channel it came through.
    pub fn verify(token: &str, secret: &str, now: i64, presented: RefreshTokenType) -> (r: Result<
        RefreshTokenClaims,
        AuthError,
    >)
        ensures
            match r {
                Ok(c) => valid_refresh_claims(token@, secret@, now, presented) == Some(c@),
                Err(e) => e == AuthError::InvalidToken && valid_refresh_claims(
                    token@,
                    secret@,
                    now,
                    presented,
                ) is None,
            },
            r matches Ok(c) ==> c.exp >= now && c.refresh_token_type == presented,
    {
        match decode_token(token, secret) {
            Some(entries) => RefreshTokenClaims::accept(
                RefreshTokenClaims::from_entries(&entries),
                now,
                presented,
            ),
            None => Err(AuthError::InvalidToken),
        }
    }

    /// What a verifier makes of decoded claims that arrived through the
    /// channel `presented` at the instant `now`: they hold unless they are
    /// missing, have expired, or name the other channel.
    pub fn accept(claims: Option<RefreshTokenClaims>, now: i64, presented: RefreshTokenType) -> (r:
        Result<RefreshTokenClaims, AuthError>)
        ensures
            match claims {
                Some(c) => if c.exp < now || c.refresh_token_type != presented {
                    r == Err::<RefreshTokenClaims, AuthError>(AuthError::InvalidToken)
                } else {
                    r == Ok::<RefreshTokenClaims, AuthError>(c)
                },
                None => r == Err::<RefreshTokenClaims, AuthError>(AuthError::InvalidToken),
            },
    {
        match claims {
            Some(c) => if c.exp < now || c.refresh_token_type != presented {
                Err(AuthError::InvalidToken)
            } else {
                Ok(c)
            },
            None => Err(AuthError::InvalidToken),
        }
    }

    /// The key under which the revocation store records this token.
    pub fn store_key(&self) -> (r: String)
        ensures
            r@ == refresh_key(self.sub, self.jti@),
    {
        let key = String::from_str("refresh_token:").concat(
            i32_to_string(self.sub).as_str(),
        ).concat(":").concat(self.jti.as_str());
        key
    }
}

} // verus!
