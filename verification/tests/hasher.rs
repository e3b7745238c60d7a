use openpasswd::hasher::{hash, hash_with_salt, verify, HashFormatError};

#[test]
fn hash_verifies_against_its_password() {
    for password in ["pw1", "", "correct horse battery staple", "pässwörd"] {
        let hashed = hash(password).unwrap();
        assert_eq!(verify(&hashed, password), Ok(true));
    }
}

#[test]
fn hash_rejects_another_password() {
    let hashed = hash("pw1").unwrap();
    assert_eq!(verify(&hashed, "pw1x"), Ok(false));
    assert_eq!(verify(&hashed, "pw"), Ok(false));
    assert_eq!(verify(&hashed, ""), Ok(false));
}

#[test]
fn hash_is_self_describing_and_salted() {
    let first = hash("pw1").unwrap();
    let second = hash("pw1").unwrap();
    assert!(first.starts_with("$argon2id$v=19$m=19456,t=2,p=1$"));
    assert_ne!(first, second);
    let parts: Vec<&str> = first.split('$').collect();
    assert_eq!(parts.len(), 6);
    // 12 bytes of salt are 16 characters of unpadded base64
    assert_eq!(parts[4].len(), 16);
    // 32 bytes of digest are 43 characters of unpadded base64
    assert_eq!(parts[5].len(), 43);
}

#[test]
fn hash_with_salt_is_a_function_of_its_arguments() {
    let a = hash_with_salt("password", b"somesalt").unwrap();
    let b = hash_with_salt("password", b"somesalt").unwrap();
    let c = hash_with_salt("password", b"othersalt").unwrap();
    assert_eq!(a, b);
    assert_ne!(a, c);
    assert!(a.starts_with("$argon2id$v=19$m=19456,t=2,p=1$c29tZXNhbHQ$"));
    assert_eq!(verify(&a, "password"), Ok(true));
}

#[test]
fn short_salt_is_refused() {
    assert_eq!(hash_with_salt("password", b"1234567"), Err(HashFormatError));
    assert_eq!(hash_with_salt("password", b""), Err(HashFormatError));
    assert!(hash_with_salt("password", b"12345678").is_ok());
}

#[test]
fn verify_reads_hashes_of_other_parameters() {
    let encoded =
        "$argon2i$v=19$m=4096,t=3,p=1$c29tZXNhbHQ$iWh06vD8Fy27wf9npn6FXWiCX4K6pW6Ue1Bnzz07Z8A";
    assert_eq!(verify(encoded, "password"), Ok(true));
    assert_eq!(verify(encoded, "passwore"), Ok(false));
}

#[test]
fn malformed_hash_is_a_format_error() {
    for bad in ["", "not a hash", "$argon2id$v=19$m=19456,t=2,p=1$c29tZXNhbHQ", "$argon2id$v=19$m=x,t=2,p=1$c29tZXNhbHQ$aaaa", "$md5$v=19$m=4096,t=3,p=1$c29tZXNhbHQ$iWh06vD8Fy27wf9npn6FXWiCX4K6pW6Ue1Bnzz07Z8A"] {
        assert_eq!(verify(bad, "password"), Err(HashFormatError));
    }
}
