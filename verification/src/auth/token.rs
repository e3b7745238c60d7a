//! The token signer and verifier: HMAC-SHA-512 signed tokens over a JSON
//! object of claims.

use vstd::prelude::*;
use vstd::string::*;
use vstd::utf8::*;

use crate::text::{opt_view, str_eq};

verus! {

/// The error type of the signer.
#[verifier::external_type_specification]
#[verifier::external_body]
pub struct ExJwtError(jsonwebtoken::errors::Error);

/// The value of one claim.
pub enum ClaimValue {
    Null,
    Integer(i64),
    Text(String),
    /// A JSON value that no claim of this crate holds: a boolean, a number
    /// beyond `i64`, an array or an object.
    Other,
}

/// The value of one claim, as contracts see it.
pub enum ClaimSpec {
    Null,
    Integer(i64),
    Text(Seq<char>),
    Other,
}

impl View for ClaimValue {
    type V = ClaimSpec;

    open spec fn view(&self) -> ClaimSpec {
        match self {
            ClaimValue::Null => ClaimSpec::Null,
            ClaimValue::Integer(n) => ClaimSpec::Integer(*n),
            ClaimValue::Text(s) => ClaimSpec::Text(s@),
            ClaimValue::Other => ClaimSpec::Other,
        }
    }
}

/// One named claim.
pub struct ClaimEntry {
    pub name: String,
    pub value: ClaimValue,
}

/// The claims of a token: names to values.
pub type ClaimsMap = Map<Seq<char>, ClaimSpec>;

/// The object that a list of entries builds: a later entry replaces an
/// earlier one of the same name.
pub open spec fn claims_map(entries: Seq<ClaimEntry>) -> ClaimsMap
    decreases entries.len(),
{
    if entries.len() == 0 {
        Map::empty()
    } else {
        claims_map(entries.drop_last()).insert(entries.last().name@, entries.last().value@)
    }
}

/// Whether every entry holds a value that a token can carry.
pub open spec fn encodable(entries: Seq<ClaimEntry>) -> bool {
    forall|i: int| 0 <= i < entries.len() ==> !((#[trigger] entries[i]).value is Other)
}

/// The HS512-signed token that carries `claims` under `secret`.
pub uninterp spec fn hs512_token(claims: Map<Seq<char>, ClaimSpec>, secret: Seq<u8>) -> Seq<char>;

/// The claims of `token` where it is a well-formed token whose HS512
/// signature verifies under `secret`, and nothing otherwise. Expiry plays no
/// part here.
pub uninterp spec fn hs512_claims(token: Seq<char>, secret: Seq<u8>) -> Option<
    Map<Seq<char>, ClaimSpec>,
>;

/// `encode` of jsonwebtoken with an HS512 header and `EncodingKey::from_secret`,
/// on the JSON object of the entries. It does not fail: the key is of the
/// family that the header names, an object of nulls, integers and strings
/// under string keys serialises, and an HMAC signs every message. Decoding
/// the token under the same secret gives the same object back.
#[verifier::external_body]
fn jwt_encode(entries: &Vec<ClaimEntry>, secret: &[u8]) -> (r: Result<
    String,
    jsonwebtoken::errors::Error,
>)
    requires
        encodable(entries@),
    ensures
        r is Ok,
        r matches Ok(t) ==> t@ == hs512_token(claims_map(entries@), secret@),
        r matches Ok(t) ==> hs512_claims(t@, secret@) == Some(claims_map(entries@)),
{
    let mut object = serde_json::Map::new();
    for e in entries.iter() {
        let value = match &e.value {
            ClaimValue::Integer(n) => serde_json::Value::from(*n),
            ClaimValue::Text(s) => serde_json::Value::from(s.as_str()),
            _ => serde_json::Value::Null,
        };
        object.insert(e.name.clone(), value);
    }
    let header = jsonwebtoken::Header::new(jsonwebtoken::Algorithm::HS512);
    jsonwebtoken::encode(&header, &object, &jsonwebtoken::EncodingKey::from_secret(secret))
}

/// `decode` of jsonwebtoken into a JSON object, with `DecodingKey::from_secret`
/// and a validation that admits HS512 alone and checks the signature and
/// nothing about the claims: the entries of the object, or the error.
#[verifier::external_body]
fn jwt_decode(token: &str, secret: &[u8]) -> (r: Result<
    Vec<ClaimEntry>,
    jsonwebtoken::errors::Error,
>)
    ensures
        match r {
            Ok(entries) => hs512_claims(token@, secret@) == Some(claims_map(entries@)),
            Err(_) => hs512_claims(token@, secret@) is None,
        },
{
    let mut rules = jsonwebtoken::Validation::new(jsonwebtoken::Algorithm::HS512);
    (rules.validate_exp, rules.validate_aud) = (false, false);
    rules.required_spec_claims.clear();
    let key = jsonwebtoken::DecodingKey::from_secret(secret);
    let data = jsonwebtoken::decode::<serde_json::Map<String, serde_json::Value>>;
    Ok(data(token, &key, &rules)?.claims.into_iter().map(|(name, v)| ClaimEntry { name, value: match v {
        serde_json::Value::Null => ClaimValue::Null,
        serde_json::Value::String(s) => ClaimValue::Text(s),
        serde_json::Value::Number(n) => n.as_i64().map_or(ClaimValue::Other, ClaimValue::Integer),
        _ => ClaimValue::Other,
    } }).collect())
}

/// The value that the entries give to `name`: that of the last entry so
/// named.
pub open spec fn lookup(entries: Seq<ClaimEntry>, name: Seq<char>) -> Option<ClaimSpec>
    decreases entries.len(),
{
    if entries.len() == 0 {
        None
    } else if entries.last().name@ == name {
        Some(entries.last().value@)
    } else {
        lookup(entries.drop_last(), name)
    }
}

/// The value that a claims object gives to `name`.
pub open spec fn field(claims: ClaimsMap, name: Seq<char>) -> Option<ClaimSpec> {
    if claims.contains_key(name) {
        Some(claims[name])
    } else {
        None
    }
}

/// Looking a name up in the entries is looking it up in their object.
pub proof fn lemma_lookup_is_field(entries: Seq<ClaimEntry>, name: Seq<char>)
    ensures
        lookup(entries, name) == field(claims_map(entries), name),
    decreases entries.len(),
{
    if entries.len() > 0 {
        lemma_lookup_is_field(entries.drop_last(), name);
    }
}

/// The value of the claim `name`, if the entries hold one.
pub fn find_claim<'a>(entries: &'a Vec<ClaimEntry>, name: &str) -> (r: Option<&'a ClaimValue>)
    ensures
        match r {
            Some(v) => field(claims_map(entries@), name@) == Some(v@),
            None => field(claims_map(entries@), name@) is None,
        },
{
    let mut i: usize = entries.len();
    proof {
        lemma_lookup_is_field(entries@, name@);
        assert(entries@.take(i as int) =~= entries@);
    }
    while i > 0
        invariant
            0 <= i <= entries@.len(),
            lookup(entries@, name@) == lookup(entries@.take(i as int), name@),
            lookup(entries@, name@) == field(claims_map(entries@), name@),
        decreases i,
    {
        let ghost prefix = entries@.take(i as int);
        assert(prefix.last() == entries@[i - 1]);
        assert(prefix.drop_last() =~= entries@.take(i - 1));
        if str_eq(entries[i - 1].name.as_str(), name) {
            return Some(&entries[i - 1].value);
        }
        i = i - 1;
    }
    None
}

/// Whether every entry holds a value that a token can carry.
pub fn is_encodable(entries: &Vec<ClaimEntry>) -> (r: bool)
    ensures
        r == encodable(entries@),
{
    let mut i: usize = 0;
    while i < entries.len()
        invariant
            0 <= i <= entries@.len(),
            forall|j: int| 0 <= j < i ==> !((#[trigger] entries@[j]).value is Other),
        decreases entries@.len() - i,
    {
        match &entries[i].value {
            ClaimValue::Other => {
                return false;
            },
            _ => {},
        }
        i = i + 1;
    }
    true
}

/// The token that signing the entries under `secret` gives: the HS512
/// token of their object under the bytes of the secret; and nothing for
/// entries that hold a value that no token can carry.
pub open spec fn signed_token(entries: Seq<ClaimEntry>, secret: Seq<char>) -> Option<Seq<char>> {
    if encodable(entries) {
        Some(hs512_token(claims_map(entries), encode_utf8(secret)))
    } else {
        None
    }
}

/// Signs the entries under `secret`. Entries that hold a value that no
/// token can carry are not signed; all others are. The token decodes under
/// the same secret to the object of the entries.
pub fn sign_token(entries: &Vec<ClaimEntry>, secret: &str) -> (r: Option<String>)
    ensures
        opt_view(r) == signed_token(entries@, secret@),
        r matches Some(t) ==> hs512_claims(t@, encode_utf8(secret@)) == Some(
            claims_map(entries@),
        ),
{
    if !is_encodable(entries) {
        return None;
    }
    match jwt_encode(entries, secret.as_bytes()) {
        Ok(t) => Some(t),
        Err(_) => None,
    }
}

/// The claims of a token whose signature verifies under `secret`.
pub fn decode_token(token: &str, secret: &str) -> (r: Option<Vec<ClaimEntry>>)
    ensures
        match r {
            Some(entries) => hs512_claims(token@, encode_utf8(secret@)) == Some(
                claims_map(entries@),
            ),
            None => hs512_claims(token@, encode_utf8(secret@)) is None,
        },
{
    match jwt_decode(token, secret.as_bytes()) {
        Ok(entries) => Some(entries),
        Err(_) => None,
    }
}

} // verus!
