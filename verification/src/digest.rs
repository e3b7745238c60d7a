//! SHA-256 digests in hexadecimal.

use sha2::Digest;
use vstd::prelude::*;

use crate::text::all_lower_hex;

verus! {

/// The SHA-256 digest of `data` as 64 lower-case hexadecimal digits.
pub uninterp spec fn sha256_hex(data: Seq<u8>) -> Seq<char>;

/// `Sha256::digest` of sha2, formatted with `{:x}`: the digest of `data`,
/// which is 32 bytes and so 64 lower-case hexadecimal digits.
#[verifier::external_body]
pub(crate) fn sha256_hex_digest(data: &[u8]) -> (r: String)
    ensures
        r@ == sha256_hex(data@),
        r@.len() == 64,
        all_lower_hex(r@),
{
    format!("{:x}", sha2::Sha256::digest(data))
}

/// The hexadecimal SHA-256 digest of `data`.
pub fn hash(data: &[u8]) -> (r: String)
    ensures
        r@ == sha256_hex(data@),
        r@.len() == 64,
{
    sha256_hex_digest(data)
}

} // verus!
