//! Randomness: alphanumeric strings, raw bytes and fresh identifiers.

use rand::Rng;
use vstd::prelude::*;
use vstd::utf8::*;

use crate::cryptography::{key_of_material, KEY_LENGTH};
use crate::hex::to_hex;
use crate::text::{all_alphanumeric, string_from_utf8};

verus! {

/// `Rng::sample_iter` of rand on the thread's generator with the
/// distribution `Alphanumeric`, cut off after `size` items: as many bytes as
/// asked for, each of them an ASCII letter or digit.
#[verifier::external_body]
pub(crate) fn generate_string_vec_u8(size: usize) -> (r: Vec<u8>)
    ensures
        r@.len() == size,
        all_alphanumeric(r@),
{
    rand::thread_rng().sample_iter(rand::distributions::Alphanumeric).take(size).collect()
}

/// `Rng::sample_iter` of rand on the thread's generator with the
/// distribution `Standard`, cut off after `size` items: as many bytes as
/// asked for.
#[verifier::external_body]
pub(crate) fn random_bytes(size: usize) -> (r: Vec<u8>)
    ensures
        r@.len() == size,
{
    rand::thread_rng().sample_iter(rand::distributions::Standard).take(size).collect()
}

/// The text that ASCII bytes spell.
pub open spec fn ascii_text(bytes: Seq<u8>) -> Seq<char> {
    Seq::new(bytes.len(), |i: int| bytes[i] as char)
}

/// Bytes below 128 are well-formed UTF-8 and decode to one character each.
pub proof fn lemma_ascii_bytes_are_text(bytes: Seq<u8>)
    requires
        forall|i: int| 0 <= i < bytes.len() ==> bytes[i] < 128,
    ensures
        valid_utf8(bytes),
        decode_utf8(bytes) == ascii_text(bytes),
        encode_utf8(ascii_text(bytes)) == bytes,
{
    let chars = ascii_text(bytes);
    assert(is_ascii_chars(chars)) by {
        assert forall|i: int| 0 <= i < chars.len() implies 0 <= (#[trigger] chars[i]) as nat
            <= 127 by {
            assert(chars[i] == bytes[i] as char);
        }
    }
    is_ascii_chars_encode_utf8(chars);
    assert(encode_utf8(chars) =~= bytes) by {
        assert forall|i: int| 0 <= i < bytes.len() implies (chars[i] as u8) == bytes[i] by {
            assert(chars[i] == bytes[i] as char);
        }
    }
    encode_utf8_valid_utf8(chars);
    encode_utf8_decode_utf8(chars);
}

/// A random string of `size` ASCII letters and digits.
pub fn generate_string(size: usize) -> (r: String)
    ensures
        r@.len() == size,
        forall|i: int|
            0 <= i < r@.len() ==> ('0' <= #[trigger] r@[i] <= '9' || 'A' <= r@[i] <= 'Z' || 'a'
                <= r@[i] <= 'z'),
{
    let bytes = generate_string_vec_u8(size);
    alphanumeric_to_string(bytes)
}

/// The string that alphanumeric bytes spell.
fn alphanumeric_to_string(bytes: Vec<u8>) -> (r: String)
    requires
        all_alphanumeric(bytes@),
    ensures
        r@ == ascii_text(bytes@),
        r@.len() == bytes@.len(),
        forall|i: int|
            0 <= i < r@.len() ==> ('0' <= #[trigger] r@[i] <= '9' || 'A' <= r@[i] <= 'Z' || 'a'
                <= r@[i] <= 'z'),
{
    proof {
        assert forall|i: int| 0 <= i < bytes@.len() implies bytes@[i] < 128 by {
            assert(crate::text::is_alphanumeric(bytes@[i]));
        }
        lemma_ascii_bytes_are_text(bytes@);
        assert forall|i: int| 0 <= i < bytes@.len() implies ('0' <= #[trigger] ascii_text(
            bytes@,
        )[i] <= '9' || 'A' <= ascii_text(bytes@)[i] <= 'Z' || 'a' <= ascii_text(bytes@)[i]
            <= 'z') by {
            assert(crate::text::is_alphanumeric(bytes@[i]));
        }
    }
    match string_from_utf8(bytes) {
        Some(s) => s,
        None => String::new(),
    }
}

/// A universally unique identifier.
#[verifier::external_type_specification]
#[verifier::external_body]
pub struct ExUuid(uuid::Uuid);

/// `Uuid::new_v4` of uuid: a fresh random identifier.
#[verifier::external_body]
pub(crate) fn uuid_new_v4() -> uuid::Uuid {
    uuid::Uuid::new_v4()
}

/// The `Display` of a `Uuid`: its hyphenated form, which is 36 characters
/// long.
#[verifier::external_body]
pub(crate) fn uuid_hyphenated(id: &uuid::Uuid) -> (r: String)
    ensures
        r@.len() == 36,
{
    id.to_string()
}

/// A fresh token identifier: a random UUID in hyphenated form.
pub fn new_token_id() -> (r: String)
    ensures
        r@.len() == 36,
{
    let id = uuid_new_v4();
    uuid_hyphenated(&id)
}

/// Fresh key material for one user: 32 random bytes, written as 64
/// hexadecimal digits.
pub fn new_master_key() -> (r: String)
    ensures
        r@.len() == 64,
        key_of_material(r@) is Some,
{
    let key = random_bytes(KEY_LENGTH);
    to_hex(key.as_slice())
}

} // verus!
