//! The claims of an access token.

use vstd::prelude::*;
use vstd::string::*;
use vstd::utf8::*;

use crate::auth::auth_error::AuthError;
use crate::auth::token::{
    claims_map, decode_token, encodable, field, find_claim, hs512_claims, hs512_token, sign_token,
    ClaimEntry, ClaimSpec, ClaimValue, ClaimsMap,
};
use crate::text::{i32_to_string, int_digits, opt_clone, opt_view};

verus! {

/// What an access token states: which issuance it is, for which user, from
/// which device, and until when it holds (seconds since the Unix epoch).
#[derive(Debug)]
pub struct Claims {
    pub jti: String,
    pub sub: i32,
    pub device: Option<String>,
    pub exp: i64,
}

/// The claims of an access token, as contracts see them.
pub struct ClaimsView {
    pub jti: Seq<char>,
    pub sub: i32,
    pub device: Option<Seq<char>>,
    pub exp: i64,
}

impl View for Claims {
    type V = ClaimsView;

    open spec fn view(&self) -> ClaimsView {
        ClaimsView { jti: self.jti@, sub: self.sub, device: opt_view(self.device), exp: self.exp }
    }
}

/// The claim that carries an optional text: the text, or null.
pub open spec fn optional_claim(text: Option<Seq<char>>) -> ClaimSpec {
    match text {
        Some(s) => ClaimSpec::Text(s),
        None => ClaimSpec::Null,
    }
}

/// The optional text that a claim carries: none where the claim is absent or
/// null, and no reading at all where it holds anything but text.
pub open spec fn optional_text(claim: Option<ClaimSpec>) -> Option<Option<Seq<char>>> {
    match claim {
        None => Some(None),
        Some(ClaimSpec::Null) => Some(None),
        Some(ClaimSpec::Text(s)) => Some(Some(s)),
        _ => None,
    }
}

/// The object that carries the claims of an access token.
pub open spec fn access_fields(c: ClaimsView) -> ClaimsMap {
    Map::<Seq<char>, ClaimSpec>::empty().insert("jti"@, ClaimSpec::Text(c.jti)).insert(
        "sub"@,
        ClaimSpec::Integer(c.sub as i64),
    ).insert("device"@, optional_claim(c.device)).insert("exp"@, ClaimSpec::Integer(c.exp))
}

/// The access claims that an object carries: it must hold a text `jti`, an
/// integer `sub` within `i32`, an integer `exp`, and a `device` that is
/// text, null or absent. Other names are ignored.
pub open spec fn access_claims(m: ClaimsMap) -> Option<ClaimsView> {
    match (field(m, "jti"@), field(m, "sub"@), optional_text(field(m, "device"@)), field(
        m,
        "exp"@,
    )) {
        (
            Some(ClaimSpec::Text(jti)),
            Some(ClaimSpec::Integer(sub)),
            Some(device),
            Some(ClaimSpec::Integer(exp)),
        ) => if i32::MIN <= sub <= i32::MAX {
            Some(ClaimsView { jti, sub: sub as i32, device, exp })
        } else {
            None
        },
        _ => None,
    }
}

/// The names of the claims are pairwise distinct.
pub proof fn lemma_claim_names_distinct()
    ensures
        "jti"@ != "sub"@,
        "jti"@ != "device"@,
        "jti"@ != "exp"@,
        "jti"@ != "refresh_token_type"@,
        "sub"@ != "device"@,
        "sub"@ != "exp"@,
        "sub"@ != "refresh_token_type"@,
        "device"@ != "exp"@,
        "device"@ != "refresh_token_type"@,
        "exp"@ != "refresh_token_type"@,
{
    reveal_strlit("jti");
    reveal_strlit("sub");
    reveal_strlit("device");
    reveal_strlit("exp");
    reveal_strlit("refresh_token_type");
    assert("jti"@[0] == 'j');
    assert("sub"@[0] == 's');
    assert("exp"@[0] == 'e');
    assert("device"@.len() == 6);
    assert("refresh_token_type"@.len() == 18);
}

/// Reading the object of some access claims gives those claims back.
pub proof fn lemma_access_claims_round_trip(c: ClaimsView)
    ensures
        access_claims(access_fields(c)) == Some(c),
{
    lemma_claim_names_distinct();
}

/// The access claims that `token` carries, where its signature verifies
/// under `secret` and its object reads as access claims. Expiry plays no
/// part here.
pub open spec fn signed_access_claims(token: Seq<char>, secret: Seq<char>) -> Option<ClaimsView> {
    match hs512_claims(token, encode_utf8(secret)) {
        Some(m) => access_claims(m),
        None => None,
    }
}

/// The access claims that `token` proves at the instant `now`: those it
/// carries, unless they have expired.
pub open spec fn valid_access_claims(token: Seq<char>, secret: Seq<char>, now: i64) -> Option<
    ClaimsView,
> {
    match signed_access_claims(token, secret) {
        Some(c) => if c.exp < now {
            None
        } else {
            Some(c)
        },
        None => None,
    }
}

/// A token whose claims have expired proves nothing, whatever it is signed
/// with.
pub proof fn lemma_expired_access_token_is_invalid(token: Seq<char>, secret: Seq<char>, now: i64)
    requires
        signed_access_claims(token, secret) matches Some(c) && c.exp < now,
    ensures
        valid_access_claims(token, secret, now) is None,
{
}

/// A token proves its claims at every instant up to their expiry.
pub proof fn lemma_unexpired_access_token_is_valid(token: Seq<char>, secret: Seq<char>, now: i64)
    requires
        signed_access_claims(token, secret) matches Some(c) && now <= c.exp,
    ensures
        valid_access_claims(token, secret, now) == signed_access_claims(token, secret),
{
}

/// The key under which the revocation store records an access token.
pub open spec fn access_key(sub: i32, jti: Seq<char>) -> Seq<char> {
    "access_token:"@ + int_digits(sub as int) + ":"@ + jti
}

/// The text of the claim `name`, if the entries hold it as text.
pub fn text_claim(entries: &Vec<ClaimEntry>, name: &str) -> (r: Option<String>)
    ensures
        match r {
            Some(s) => field(claims_map(entries@), name@) == Some(ClaimSpec::Text(s@)),
            None => !(field(claims_map(entries@), name@) matches Some(ClaimSpec::Text(_))),
        },
{
    match find_claim(entries, name) {
        Some(ClaimValue::Text(s)) => Some(s.clone()),
        _ => None,
    }
}

/// The integer of the claim `name`, if the entries hold it as an integer.
pub fn integer_claim(entries: &Vec<ClaimEntry>, name: &str) -> (r: Option<i64>)
    ensures
        match r {
            Some(n) => field(claims_map(entries@), name@) == Some(ClaimSpec::Integer(n)),
            None => !(field(claims_map(entries@), name@) matches Some(ClaimSpec::Integer(_))),
        },
{
    match find_claim(entries, name) {
        Some(ClaimValue::Integer(n)) => Some(*n),
        _ => None,
    }
}

/// The optional text of the claim `name`: none where the claim is absent or
/// null, and no reading where it holds anything but text.
pub fn optional_text_claim(entries: &Vec<ClaimEntry>, name: &str) -> (r: Option<Option<String>>)
    ensures
        match r {
            Some(t) => optional_text(field(claims_map(entries@), name@)) == Some(opt_view(t)),
            None => optional_text(field(claims_map(entries@), name@)) is None,
        },
{
    match find_claim(entries, name) {
        None => Some(None),
        Some(ClaimValue::Null) => Some(None),
        Some(ClaimValue::Text(s)) => Some(Some(s.clone())),
        Some(_) => None,
    }
}

impl Clone for Claims {
    fn clone(&self) -> (r: Self)
        ensures
            r == *self,
    {
        Claims {
            jti: self.jti.clone(),
            sub: self.sub,
            device: opt_clone(&self.device),
            exp: self.exp,
        }
    }
}

impl Claims {
    /// The entries that carry these claims.
    pub fn to_entries(&self) -> (r: Vec<ClaimEntry>)
        ensures
            encodable(r@),
            claims_map(r@) == access_fields(self@),
    {
        let device = match &self.device {
            Some(d) => ClaimValue::Text(d.clone()),
            None => ClaimValue::Null,
        };
        let mut entries: Vec<ClaimEntry> = Vec::new();
        entries.push(
            ClaimEntry { name: String::from_str("jti"), value: ClaimValue::Text(self.jti.clone()) },
        );
        entries.push(
            ClaimEntry {
                name: String::from_str("sub"),
                value: ClaimValue::Integer(self.sub as i64),
            },
        );
        entries.push(ClaimEntry { name: String::from_str("device"), value: device });
        entries.push(
            ClaimEntry { name: String::from_str("exp"), value: ClaimValue::Integer(self.exp) },
        );
        proof {
            let e = entries@;
            let e3 = e.drop_last();
            let e2 = e3.drop_last();
            let e1 = e2.drop_last();
            assert(e1.drop_last().len() == 0);
            assert(claims_map(e1.drop_last()) == Map::<Seq<char>, ClaimSpec>::empty());
            assert(claims_map(e1) == claims_map(e1.drop_last()).insert(
                e1.last().name@,
                e1.last().value@,
            ));
            assert(claims_map(e2) == claims_map(e1).insert(e2.last().name@, e2.last().value@));
            assert(claims_map(e3) == claims_map(e2).insert(e3.last().name@, e3.last().value@));
            assert(claims_map(e) == claims_map(e3).insert(e.last().name@, e.last().value@));
        }
        entries
    }

    /// The access claims that the entries carry.
    pub fn from_entries(entries: &Vec<ClaimEntry>) -> (r: Option<Claims>)
        ensures
            match r {
                Some(c) => access_claims(claims_map(entries@)) == Some(c@),
                None => access_claims(claims_map(entries@)) is None,
            },
    {
        let jti = match text_claim(entries, "jti") {
            Some(jti) => jti,
            None => {
                return None;
            },
        };
        let sub = match integer_claim(entries, "sub") {
            Some(sub) => sub,
            None => {
                return None;
            },
        };
        let device = match optional_text_claim(entries, "device") {
            Some(device) => device,
            None => {
                return None;
            },
        };
        let exp = match integer_claim(entries, "exp") {
            Some(exp) => exp,
            None => {
                return None;
            },
        };
        if sub < i32::MIN as i64 || sub > i32::MAX as i64 {
            return None;
        }
        Some(Claims { jti, sub: sub as i32, device, exp })
    }

    /// Whether these claims no longer hold at the instant `now`.
    pub fn is_expired(&self, now: i64) -> (r: bool)
        ensures
            r == (self.exp < now),
    {
        self.exp < now
    }

    /// Signs these claims under `secret`. It always succeeds. The token
    /// carries exactly these claims, and proves them at every instant up to
    /// their expiry.
    pub fn sign(&self, secret: &str) -> (r: Result<String, AuthError>)
        ensures
            r is Ok,
            r matches Ok(t) ==> {
                &&& t@ == hs512_token(access_fields(self@), encode_utf8(secret@))
                &&& signed_access_claims(t@, secret@) == Some(self@)
                &&& forall|now: i64|
                    now <= self.exp ==> #[trigger] valid_access_claims(t@, secret@, now) == Some(
                        self@,
                    )
            },
    {
        let entries = self.to_entries();
        proof {
            lemma_access_claims_round_trip(self@);
        }
        match sign_token(&entries, secret) {
            Some(t) => Ok(t),
            None => Err(AuthError::TokenCreation),
        }
    }

    /// Checks a token at the instant `now`: its signature under `secret`,
    /// the shape of its claims, and its expiry.
    pub fn verify(token: &str, secret: &str, now: i64) -> (r: Result<Claims, AuthError>)
        ensures
            match r {
                Ok(c) => valid_access_claims(token@, secret@, now) == Some(c@),
                Err(e) => e == AuthError::InvalidToken && valid_access_claims(
                    token@,
                    secret@,
                    now,
                ) is None,
            },
            r matches Ok(c) ==> c.exp >= now,
    {
        match decode_token(token, secret) {
            Some(entries) => Claims::accept(Claims::from_entries(&entries), now),
            None => Err(AuthError::InvalidToken),
        }
    }

    /// What a verifier makes of decoded claims at the instant `now`: they
    /// hold unless they are missing or have expired.
    pub fn accept(claims: Option<Claims>, now: i64) -> (r: Result<Claims, AuthError>)
        ensures
            match claims {
                Some(c) => if c.exp < now {
                    r == Err::<Claims, AuthError>(AuthError::InvalidToken)
                } else {
                    r == Ok::<Claims, AuthError>(c)
                },
                None => r == Err::<Claims, AuthError>(AuthError::InvalidToken),
            },
    {
        match claims {
            Some(c) => if c.is_expired(now) {
                Err(AuthError::InvalidToken)
            } else {
                Ok(c)
            },
            None => Err(AuthError::InvalidToken),
        }
    }

    /// The key under which the revocation store records this token.
    pub fn store_key(&self) -> (r: String)
        ensures
            r@ == access_key(self.sub, self.jti@),
    {
        let key = String::from_str("access_token:").concat(i32_to_string(self.sub).as_str()).concat(
            ":",
        ).concat(self.jti.as_str());
        key
    }
}

} // verus!
