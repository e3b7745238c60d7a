//! The password hasher: salted, memory-hard, self-describing hashes.

use vstd::prelude::*;
use vstd::string::*;
use vstd::utf8::*;

use crate::random::generate_string_vec_u8;

verus! {

/// The error type of the hasher.
#[verifier::external_type_specification]
#[verifier::external_body]
pub struct ExArgon2Error(argon2::Error);

/// A hash string that the hasher cannot read, or an input beyond its limits.
#[derive(Clone, Copy, Debug, PartialEq, Eq, Structural)]
pub struct HashFormatError;

/// The number of salt bytes drawn for each new hash.
pub const SALT_LENGTH: usize = 12;

/// The encoded Argon2id hash of `password` under `salt` with the hasher's
/// default cost parameters.
pub uninterp spec fn argon2_hash(password: Seq<u8>, salt: Seq<u8>) -> Seq<char>;

/// What checking `password` against the encoded hash `encoded` yields:
/// whether it matches, or nothing where `encoded` cannot be read or an input
/// is beyond the hasher's limits.
pub uninterp spec fn argon2_verify(encoded: Seq<char>, password: Seq<u8>) -> Option<bool>;

/// The inputs that the hasher accepts: a salt of at least 8 bytes, and no
/// more than 2^32 - 1 bytes of either.
pub open spec fn hashable(password: Seq<u8>, salt: Seq<u8>) -> bool {
    &&& password.len() <= 0xFFFF_FFFF
    &&& 8 <= salt.len() <= 0xFFFF_FFFF
}

/// `hash_encoded` of rust-argon2 with `Config::default()`. It succeeds
/// exactly on the inputs within the hasher's limits, and `verify_encoded`
/// accepts the password it was made from against what it returns.
#[verifier::external_body]
fn argon2_hash_encoded(password: &[u8], salt: &[u8]) -> (r: Result<String, argon2::Error>)
    ensures
        r is Ok <==> hashable(password@, salt@),
        r matches Ok(h) ==> h@ == argon2_hash(password@, salt@),
        r matches Ok(h) ==> argon2_verify(h@, password@) == Some(true),
{
    argon2::hash_encoded(password, salt, &argon2::Config::default())
}

/// `verify_encoded` of rust-argon2: whether the password matches the
/// encoded hash, or its error.
#[verifier::external_body]
fn argon2_verify_encoded(encoded: &str, password: &[u8]) -> (r: Result<bool, argon2::Error>)
    ensures
        match r {
            Ok(b) => argon2_verify(encoded@, password@) == Some(b),
            Err(_) => argon2_verify(encoded@, password@) is None,
        },
{
    argon2::verify_encoded(encoded, password)
}

/// What `verify` returns for a stored hash and a candidate password.
pub open spec fn verify_result(hash: Seq<char>, password: Seq<char>) -> Result<
    bool,
    HashFormatError,
> {
    match argon2_verify(hash, encode_utf8(password)) {
        Some(b) => Ok(b),
        None => Err(HashFormatError),
    }
}

/// What `hash_with_salt` returns for a password and a salt.
pub open spec fn hash_result(password: Seq<char>, salt: Seq<u8>) -> Result<
    Seq<char>,
    HashFormatError,
> {
    if hashable(encode_utf8(password), salt) {
        Ok(argon2_hash(encode_utf8(password), salt))
    } else {
        Err(HashFormatError)
    }
}

/// Hashes `password` under the given salt. The result verifies against the
/// same password.
pub fn hash_with_salt(password: &str, salt: &[u8]) -> (r: Result<String, HashFormatError>)
    ensures
        match r {
            Ok(h) => hash_result(password@, salt@) == Ok::<Seq<char>, HashFormatError>(h@),
            Err(e) => hash_result(password@, salt@) is Err,
        },
        r matches Ok(h) ==> verify_result(h@, password@) == Ok::<bool, HashFormatError>(true),
{
    match argon2_hash_encoded(password.as_bytes(), salt) {
        Ok(h) => Ok(h),
        Err(_) => Err(HashFormatError),
    }
}

/// Hashes `password` under a fresh random salt of `SALT_LENGTH` bytes. It
/// succeeds on every password of at most 2^32 - 1 bytes, and the result
/// verifies against the same password.
pub fn hash(password: &str) -> (r: Result<String, HashFormatError>)
    ensures
        r is Ok <==> encode_utf8(password@).len() <= 0xFFFF_FFFF,
        r matches Ok(h) ==> verify_result(h@, password@) == Ok::<bool, HashFormatError>(true),
        r matches Ok(h) ==> exists|salt: Seq<u8>|
            salt.len() == SALT_LENGTH && hash_result(password@, salt) == Ok::<
                Seq<char>,
                HashFormatError,
            >(h@),
{
    let salt = generate_string_vec_u8(SALT_LENGTH);
    hash_with_salt(password, salt.as_slice())
}

/// Checks a candidate password against a stored hash.
pub fn verify(hash: &str, password: &str) -> (r: Result<bool, HashFormatError>)
    ensures
        r == verify_result(hash@, password@),
{
    match argon2_verify_encoded(hash, password.as_bytes()) {
        Ok(b) => Ok(b),
        Err(_) => Err(HashFormatError),
    }
}

} // verus!
