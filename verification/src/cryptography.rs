//! The symmetric cipher: authenticated encryption of one user's secrets
//! under that user's key. A payload is the nonce followed by the sealed text.

use aes_gcm::aead::Aead;
use aes_gcm::aead::KeyInit;
use vstd::prelude::*;
use vstd::string::*;
use vstd::utf8::*;

use crate::hex::{from_hex, hex_bytes};
use crate::random::random_bytes;
use crate::text::string_from_utf8;

verus! {

/// The error type of the cipher.
#[verifier::external_type_specification]
#[verifier::external_body]
pub struct ExAesGcmError(aes_gcm::Error);

/// Why the cipher refused.
#[derive(Clone, Copy, Debug, PartialEq, Eq, Structural)]
pub enum CipherError {
    /// The payload is shorter than a nonce, or its tag does not verify under
    /// this key: it is corrupt or was tampered with.
    AuthenticationFailure,
    /// The payload is authentic and holds bytes that are no text.
    NotText,
    /// The key is not `KEY_LENGTH` bytes long, or the key material does not
    /// write as many.
    InvalidKeyLength,
    /// The text is longer than the cipher can seal in one message.
    TextTooLong,
}

/// The length of a key in bytes.
pub const KEY_LENGTH: usize = 32;

/// The length of a nonce in bytes.
pub const NONCE_LENGTH: usize = 12;

/// The length of an authentication tag in bytes.
pub const TAG_LENGTH: usize = 16;

/// The key that key material writes: `KEY_LENGTH` bytes in hexadecimal. Any
/// other text writes no key.
pub open spec fn key_of_material(material: Seq<char>) -> Option<Seq<u8>> {
    match hex_bytes(material) {
        Some(key) => if key.len() == KEY_LENGTH {
            Some(key)
        } else {
            None
        },
        None => None,
    }
}

/// The most bytes that one message can hold: 2^36.
pub open spec fn max_text_bytes() -> int {
    0x10_0000_0000
}

/// The AES-256-GCM sealing of `plaintext` under `key` and `nonce`: the
/// ciphertext followed by its tag.
pub uninterp spec fn aes_gcm_seal(key: Seq<u8>, nonce: Seq<u8>, plaintext: Seq<u8>) -> Seq<u8>;

/// What AES-256-GCM recovers from `sealed` under `key` and `nonce`: the
/// plaintext, or nothing where the tag does not verify.
pub uninterp spec fn aes_gcm_open(key: Seq<u8>, nonce: Seq<u8>, sealed: Seq<u8>) -> Option<
    Seq<u8>,
>;

/// `Aead::encrypt` of `Aes256Gcm` from aes-gcm, on a cipher made with
/// `Aes256Gcm::new` from the key. It succeeds exactly on plaintexts of at
/// most 2^36 bytes; the result is one tag longer than the plaintext, and
/// decrypting it under the same key and nonce gives the plaintext back.
#[verifier::external_body]
fn aes_gcm_encrypt(key: &[u8], nonce: &[u8], plaintext: &[u8]) -> (r: Result<
    Vec<u8>,
    aes_gcm::Error,
>)
    requires
        key@.len() == KEY_LENGTH,
        nonce@.len() == NONCE_LENGTH,
    ensures
        r is Ok <==> plaintext@.len() <= max_text_bytes(),
        r matches Ok(c) ==> c@ == aes_gcm_seal(key@, nonce@, plaintext@),
        r matches Ok(c) ==> c@.len() == plaintext@.len() + TAG_LENGTH,
        r matches Ok(c) ==> aes_gcm_open(key@, nonce@, c@) == Some(plaintext@),
{
    let cipher = aes_gcm::Aes256Gcm::new(aes_gcm::Key::<aes_gcm::Aes256Gcm>::from_slice(key));
    cipher.encrypt(aes_gcm::Nonce::from_slice(nonce), plaintext)
}

/// `Aead::decrypt` of `Aes256Gcm` from aes-gcm, on a cipher made with
/// `Aes256Gcm::new` from the key: the plaintext, or the cipher's error.
#[verifier::external_body]
fn aes_gcm_decrypt(key: &[u8], nonce: &[u8], sealed: &[u8]) -> (r: Result<Vec<u8>, aes_gcm::Error>)
    requires
        key@.len() == KEY_LENGTH,
        nonce@.len() == NONCE_LENGTH,
    ensures
        match r {
            Ok(p) => aes_gcm_open(key@, nonce@, sealed@) == Some(p@),
            Err(_) => aes_gcm_open(key@, nonce@, sealed@) is None,
        },
{
    let cipher = aes_gcm::Aes256Gcm::new(aes_gcm::Key::<aes_gcm::Aes256Gcm>::from_slice(key));
    cipher.decrypt(aes_gcm::Nonce::from_slice(nonce), sealed)
}

/// The payload that sealing `text` under `key` with `nonce` gives.
pub open spec fn seal_payload(key: Seq<u8>, nonce: Seq<u8>, text: Seq<char>) -> Seq<u8> {
    nonce + aes_gcm_seal(key, nonce, encode_utf8(text))
}

/// What opening `payload` under `key` gives.
pub open spec fn open_payload(key: Seq<u8>, payload: Seq<u8>) -> Result<Seq<char>, CipherError> {
    if payload.len() < NONCE_LENGTH {
        Err(CipherError::AuthenticationFailure)
    } else {
        match aes_gcm_open(
            key,
            payload.subrange(0, NONCE_LENGTH as int),
            payload.subrange(NONCE_LENGTH as int, payload.len() as int),
        ) {
            None => Err(CipherError::AuthenticationFailure),
            Some(bytes) => if valid_utf8(bytes) {
                Ok(decode_utf8(bytes))
            } else {
                Err(CipherError::NotText)
            },
        }
    }
}

/// A cipher for text.
///
/// The contracts speak of what the cipher makes of a payload and of the
/// texts it accepts, which a verified implementation defines. One that is
/// written outside verified code keeps the defaults, of which nothing is
/// known, and answers for the contracts itself.
pub trait Cipher {
    /// What `decrypt` makes of a payload.
    open spec fn opened(&self, payload: Seq<u8>) -> Result<Seq<char>, CipherError> {
        arbitrary()
    }

    /// Whether `encrypt` accepts a text.
    open spec fn sealable(&self, text: Seq<char>) -> bool {
        arbitrary()
    }

    /// Seals `value`. Opening the result gives `value` back.
    fn encrypt(&self, value: &str) -> (r: Result<Vec<u8>, CipherError>)
        ensures
            r is Ok <==> self.sealable(value@),
            r matches Ok(payload) ==> self.opened(payload@) == Ok::<Seq<char>, CipherError>(
                value@,
            ),
    ;

    /// Opens a payload.
    fn decrypt(&self, value: &[u8]) -> (r: Result<String, CipherError>)
        ensures
            match r {
                Ok(text) => self.opened(value@) == Ok::<Seq<char>, CipherError>(text@),
                Err(e) => self.opened(value@) == Err::<Seq<char>, CipherError>(e),
            },
    ;
}

/// AES-256-GCM under one key.
pub struct AesGcmCipher {
    key: Vec<u8>,
}

impl AesGcmCipher {
    #[verifier::type_invariant]
    spec fn well_formed(self) -> bool {
        self.key@.len() == KEY_LENGTH
    }

    /// The key of this cipher.
    pub closed spec fn key(&self) -> Seq<u8> {
        self.key@
    }

    /// A cipher under the bytes of `key`, which must be `KEY_LENGTH` of them.
    pub fn new(key: &str) -> (r: AesGcmCipher)
        requires
            encode_utf8(key@).len() == KEY_LENGTH,
        ensures
            r.key() == encode_utf8(key@),
    {
        AesGcmCipher { key: key.as_bytes_vec() }
    }

    /// A cipher under the bytes of `key`, if they are `KEY_LENGTH` of them.
    pub fn from_key(key: &str) -> (r: Result<AesGcmCipher, CipherError>)
        ensures
            match r {
                Ok(c) => encode_utf8(key@).len() == KEY_LENGTH && c.key() == encode_utf8(key@),
                Err(e) => encode_utf8(key@).len() != KEY_LENGTH && e
                    == CipherError::InvalidKeyLength,
            },
    {
        if key.as_bytes().len() == KEY_LENGTH {
            Ok(AesGcmCipher::new(key))
        } else {
            Err(CipherError::InvalidKeyLength)
        }
    }

    /// A cipher under the key that the key material writes.
    pub fn from_material(material: &str) -> (r: Result<AesGcmCipher, CipherError>)
        ensures
            match r {
                Ok(c) => key_of_material(material@) == Some(c.key()),
                Err(e) => key_of_material(material@) is None && e
                    == CipherError::InvalidKeyLength,
            },
    {
        match from_hex(material) {
            Some(key) => if key.len() == KEY_LENGTH {
                Ok(AesGcmCipher { key })
            } else {
                Err(CipherError::InvalidKeyLength)
            },
            None => Err(CipherError::InvalidKeyLength),
        }
    }

    /// Seals `value` under the given nonce: the payload is the nonce, then
    /// the sealed text.
    pub fn encrypt_with_nonce(&self, value: &str, nonce: &[u8]) -> (r: Result<
        Vec<u8>,
        CipherError,
    >)
        requires
            nonce@.len() == NONCE_LENGTH,
        ensures
            match r {
                Ok(payload) => {
                    &&& encode_utf8(value@).len() <= max_text_bytes()
                    &&& payload@ == seal_payload(self.key(), nonce@, value@)
                    &&& payload@.len() == NONCE_LENGTH + encode_utf8(value@).len() + TAG_LENGTH
                    &&& open_payload(self.key(), payload@) == Ok::<Seq<char>, CipherError>(
                        value@,
                    )
                },
                Err(e) => encode_utf8(value@).len() > max_text_bytes() && e
                    == CipherError::TextTooLong,
            },
    {
        proof {
            use_type_invariant(self);
        }
        let text = value.as_bytes();
        match aes_gcm_encrypt(self.key.as_slice(), nonce, text) {
            Ok(sealed) => {
                let mut payload: Vec<u8> = Vec::new();
                payload.extend_from_slice(nonce);
                payload.extend_from_slice(sealed.as_slice());
                proof {
                    assert(payload@ =~= nonce@ + sealed@);
                    assert(payload@.subrange(0, NONCE_LENGTH as int) =~= nonce@);
                    assert(payload@.subrange(NONCE_LENGTH as int, payload@.len() as int)
                        =~= sealed@);
                    encode_utf8_valid_utf8(value@);
                    encode_utf8_decode_utf8(value@);
                }
                Ok(payload)
            },
            Err(_) => Err(CipherError::TextTooLong),
        }
    }
}

impl Cipher for AesGcmCipher {
    open spec fn opened(&self, payload: Seq<u8>) -> Result<Seq<char>, CipherError> {
        open_payload(self.key(), payload)
    }

    open spec fn sealable(&self, text: Seq<char>) -> bool {
        encode_utf8(text).len() <= max_text_bytes()
    }

    /// Seals `value` under a fresh random nonce: the payload is the nonce,
    /// the sealed text and its tag, and so is 28 bytes longer than the text.
    fn encrypt(&self, value: &str) -> (r: Result<Vec<u8>, CipherError>)
        ensures
            r matches Ok(payload) ==> payload@ == seal_payload(
                self.key(),
                payload@.subrange(0, NONCE_LENGTH as int),
                value@,
            ),
            r matches Ok(payload) ==> payload@.len() == NONCE_LENGTH + encode_utf8(value@).len()
                + TAG_LENGTH,
            r matches Err(e) ==> e == CipherError::TextTooLong,
    {
        let nonce = random_bytes(NONCE_LENGTH);
        let r = self.encrypt_with_nonce(value, nonce.as_slice());
        proof {
            if r is Ok {
                assert(r->Ok_0@.subrange(0, NONCE_LENGTH as int) =~= nonce@);
            }
        }
        r
    }

    fn decrypt(&self, value: &[u8]) -> (r: Result<String, CipherError>) {
        proof {
            use_type_invariant(self);
        }
        if value.len() < NONCE_LENGTH {
            return Err(CipherError::AuthenticationFailure);
        }
        let (nonce, sealed) = value.split_at(NONCE_LENGTH);
        match aes_gcm_decrypt(self.key.as_slice(), nonce, sealed) {
            Ok(bytes) => match string_from_utf8(bytes) {
                Some(text) => Ok(text),
                None => Err(CipherError::NotText),
            },
            Err(_) => Err(CipherError::AuthenticationFailure),
        }
    }
}

/// Two payloads of one text under one key differ as soon as their nonces do.
pub proof fn lemma_fresh_nonce_fresh_payload(
    key: Seq<u8>,
    first: Seq<u8>,
    second: Seq<u8>,
    text: Seq<char>,
)
    requires
        first.len() == NONCE_LENGTH,
        second.len() == NONCE_LENGTH,
        first != second,
    ensures
        seal_payload(key, first, text) != seal_payload(key, second, text),
{
    let a = seal_payload(key, first, text);
    let b = seal_payload(key, second, text);
    if a == b {
        assert(a.subrange(0, NONCE_LENGTH as int) =~= first);
        assert(b.subrange(0, NONCE_LENGTH as int) =~= second);
    }
}

} // verus!
