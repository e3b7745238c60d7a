use aes_gcm::aead::{Aead, KeyInit};
use aes_gcm::{Aes256Gcm, Nonce};
use openpasswd::cryptography::{AesGcmCipher, Cipher, CipherError};

const ID: &str = "67dcca6627454cff81cc811e2a4a17b9";
const OTHER: &str = "00112233445566778899aabbccddeeff";

#[test]
fn is_encrypting() {
    let cipher = AesGcmCipher::new(ID);
    let value = cipher.encrypt("hello_world").unwrap();
    let result = cipher.decrypt(&value).unwrap();
    assert_eq!("hello_world", result);
}

#[test]
fn payload_is_nonce_then_sealed_text() {
    let cipher = AesGcmCipher::new(ID);
    let nonce = [7u8; 12];
    let payload = cipher.encrypt_with_nonce("hello_world", &nonce).unwrap();
    assert_eq!(payload.len(), 12 + 11 + 16);
    assert_eq!(&payload[..12], &nonce[..]);
    assert_ne!(&payload[12..23], "hello_world".as_bytes());
    assert_eq!(cipher.decrypt(&payload).unwrap(), "hello_world");
}

#[test]
fn sealing_matches_the_published_vectors() {
    let zeros = String::from_utf8(vec![0u8; 32]).unwrap();
    let cipher = AesGcmCipher::new(&zeros);
    let nonce = [0u8; 12];
    let empty = cipher.encrypt_with_nonce("", &nonce).unwrap();
    let tag: [u8; 16] = [
        0x53, 0x0f, 0x8a, 0xfb, 0xc7, 0x45, 0x36, 0xb9, 0xa9, 0x63, 0xb4, 0xf1, 0xc4, 0xcb, 0x73,
        0x8b,
    ];
    assert_eq!(&empty[..12], &nonce[..]);
    assert_eq!(&empty[12..], &tag[..]);
    let block = String::from_utf8(vec![0u8; 16]).unwrap();
    let sealed = cipher.encrypt_with_nonce(&block, &nonce).unwrap();
    let expected: [u8; 32] = [
        0xce, 0xa7, 0x40, 0x3d, 0x4d, 0x60, 0x6b, 0x6e, 0x07, 0x4e, 0xc5, 0xd3, 0xba, 0xf3, 0x9d,
        0x18, 0xd0, 0xd1, 0xc8, 0xa7, 0x99, 0x99, 0x6b, 0xf0, 0x26, 0x5b, 0x98, 0xb5, 0xd4, 0x8a,
        0xb9, 0x19,
    ];
    assert_eq!(&sealed[12..], &expected[..]);
}

#[test]
fn same_nonce_gives_same_payload() {
    let cipher = AesGcmCipher::new(ID);
    let nonce = [1u8; 12];
    let a = cipher.encrypt_with_nonce("secret", &nonce).unwrap();
    let b = cipher.encrypt_with_nonce("secret", &nonce).unwrap();
    assert_eq!(a, b);
}

#[test]
fn different_nonces_give_different_payloads() {
    let cipher = AesGcmCipher::new(ID);
    let a = cipher.encrypt_with_nonce("secret", &[1u8; 12]).unwrap();
    let b = cipher.encrypt_with_nonce("secret", &[2u8; 12]).unwrap();
    assert_ne!(a, b);
}

#[test]
fn encrypting_twice_gives_different_payloads() {
    let cipher = AesGcmCipher::new(ID);
    let a = cipher.encrypt("same text").unwrap();
    let b = cipher.encrypt("same text").unwrap();
    assert_ne!(a, b);
    assert_eq!(cipher.decrypt(&a).unwrap(), "same text");
    assert_eq!(cipher.decrypt(&b).unwrap(), "same text");
}

#[test]
fn round_trip_of_empty_and_non_ascii_text() {
    let cipher = AesGcmCipher::new(ID);
    for text in ["", "pässwörd ✓", "a"] {
        let payload = cipher.encrypt(text).unwrap();
        assert_eq!(payload.len(), 12 + text.len() + 16);
        assert_eq!(cipher.decrypt(&payload).unwrap(), text);
    }
}

#[test]
fn another_key_fails_authentication() {
    let payload = AesGcmCipher::new(ID).encrypt("hello_world").unwrap();
    let result = AesGcmCipher::new(OTHER).decrypt(&payload);
    assert_eq!(result, Err(CipherError::AuthenticationFailure));
}

#[test]
fn short_payload_fails_authentication() {
    let cipher = AesGcmCipher::new(ID);
    assert_eq!(cipher.decrypt(&[]), Err(CipherError::AuthenticationFailure));
    assert_eq!(cipher.decrypt(&[0u8; 11]), Err(CipherError::AuthenticationFailure));
    assert_eq!(cipher.decrypt(&[0u8; 12]), Err(CipherError::AuthenticationFailure));
    assert_eq!(cipher.decrypt(&[0u8; 27]), Err(CipherError::AuthenticationFailure));
}

#[test]
fn tampered_payload_fails_authentication() {
    let cipher = AesGcmCipher::new(ID);
    let payload = cipher.encrypt("hello_world").unwrap();
    for position in [0usize, 11, 12, 20, payload.len() - 1] {
        let mut changed = payload.clone();
        changed[position] ^= 1;
        assert_eq!(cipher.decrypt(&changed), Err(CipherError::AuthenticationFailure));
    }
}

#[test]
fn authentic_bytes_that_are_no_text_are_told_apart() {
    let outside = Aes256Gcm::new_from_slice(ID.as_bytes()).unwrap();
    let nonce = [3u8; 12];
    let sealed = outside.encrypt(Nonce::from_slice(&nonce), &[0xffu8, 0xfe][..]).unwrap();
    let mut payload = nonce.to_vec();
    payload.extend(sealed);
    assert_eq!(AesGcmCipher::new(ID).decrypt(&payload), Err(CipherError::NotText));
}

#[test]
fn payload_opens_with_the_cipher_alone() {
    let payload = AesGcmCipher::new(ID).encrypt("hello_world").unwrap();
    let outside = Aes256Gcm::new_from_slice(ID.as_bytes()).unwrap();
    let plain = outside.decrypt(Nonce::from_slice(&payload[..12]), &payload[12..]).unwrap();
    assert_eq!(plain, b"hello_world");
}

#[test]
fn key_length_is_checked() {
    assert!(AesGcmCipher::from_key(ID).is_ok());
    assert_eq!(AesGcmCipher::from_key("short").err(), Some(CipherError::InvalidKeyLength));
    assert_eq!(AesGcmCipher::from_key("").err(), Some(CipherError::InvalidKeyLength));
    // 32 characters, more than 32 bytes
    let wide = "é".repeat(32);
    assert_eq!(AesGcmCipher::from_key(&wide).err(), Some(CipherError::InvalidKeyLength));
    // 16 characters of two bytes each are 32 bytes
    let narrow = "é".repeat(16);
    assert!(AesGcmCipher::from_key(&narrow).is_ok());
}

#[test]
fn key_material_writes_the_key_in_hexadecimal() {
    let material = "3637646363613636323734353463666638316363383131653261346131376239";
    let cipher = AesGcmCipher::from_material(material).unwrap();
    let payload = AesGcmCipher::new(ID).encrypt("hello_world").unwrap();
    assert_eq!(cipher.decrypt(&payload).unwrap(), "hello_world");
    let zeros = "00".repeat(32);
    let sealed = AesGcmCipher::from_material(&zeros).unwrap().encrypt_with_nonce("", &[0u8; 12]);
    assert_eq!(sealed.unwrap()[12], 0x53);
    for bad in [ID, "", "00", &material[..62], &"00".repeat(33), &"0g".repeat(32)] {
        assert_eq!(AesGcmCipher::from_material(bad).err(), Some(CipherError::InvalidKeyLength));
    }
}

#[test]
fn payloads_of_one_text_are_equally_long() {
    let cipher = AesGcmCipher::new(ID);
    let a = cipher.encrypt("same text").unwrap();
    let b = cipher.encrypt("same text").unwrap();
    assert_eq!(a.len(), b.len());
    assert_eq!(a.len(), 12 + 9 + 16);
}
