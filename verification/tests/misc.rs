use openpasswd::accounts::accounts_error::AccountError;
use openpasswd::auth::auth_error::AuthError;
use openpasswd::cli::api::{Endpoint, OpenPasswdApi, BASE_URL};
use openpasswd::cli::generator::Generator;
use openpasswd::cli::login::Login;
use openpasswd::cli::profile::Profile;
use openpasswd::cryptography::CipherError;
use openpasswd::digest::hash;
use openpasswd::hex::{from_hex, to_hex};
use openpasswd::mail_service::{EmailAddress, MailService, MessageBody};
use openpasswd::model::auth::{AccessToken, RefreshTokenType};
use openpasswd::model::error::ErrorResponse;
use openpasswd::model::total_of;
use openpasswd::random::{generate_string, new_master_key, new_token_id};
use openpasswd::text::{i32_to_string, opt_clone, opt_str_eq, str_eq};

#[test]
fn numbers_are_written_in_decimal() {
    assert_eq!(i32_to_string(0), "0");
    assert_eq!(i32_to_string(7), "7");
    assert_eq!(i32_to_string(10), "10");
    assert_eq!(i32_to_string(-1), "-1");
    assert_eq!(i32_to_string(1002003), "1002003");
    assert_eq!(i32_to_string(i32::MAX), "2147483647");
    assert_eq!(i32_to_string(i32::MIN), "-2147483648");
}

#[test]
fn strings_compare_by_their_characters() {
    assert!(str_eq("", ""));
    assert!(str_eq("abc", "abc"));
    assert!(!str_eq("abc", "abd"));
    assert!(!str_eq("abc", "ab"));
    assert!(!str_eq("é", "e"));
    assert!(opt_str_eq(&None, &None));
    assert!(opt_str_eq(&Some("a".to_string()), &Some("a".to_string())));
    assert!(!opt_str_eq(&Some("a".to_string()), &None));
    assert!(!opt_str_eq(&Some("a".to_string()), &Some("b".to_string())));
    assert_eq!(opt_clone(&Some("a".to_string())), Some("a".to_string()));
    assert_eq!(opt_clone(&None), None);
}

#[test]
fn digest_is_sha256_in_lower_case_hex() {
    assert_eq!(hash(b"abc"), "ba7816bf8f01cfea414140de5dae2223b00361a396177a9cb410ff61f20015ad");
    assert_eq!(hash(b""), "e3b0c44298fc1c149afbf4c8996fb92427ae41e4649b934ca495991b7852b855");
}

#[test]
fn random_strings_have_the_length_and_alphabet_asked_for() {
    for size in [0usize, 1, 16, 64] {
        let s = generate_string(size);
        assert_eq!(s.len(), size);
        assert!(s.chars().all(|c| c.is_ascii_alphanumeric()));
    }
    assert_ne!(generate_string(32), generate_string(32));
}

#[test]
fn fresh_identifiers_have_their_shapes() {
    let id = new_token_id();
    assert_eq!(id.len(), 36);
    let dashes: Vec<usize> = id.char_indices().filter(|(_, c)| *c == '-').map(|(i, _)| i).collect();
    assert_eq!(dashes, vec![8, 13, 18, 23]);
    assert_ne!(new_token_id(), id);
    let key = new_master_key();
    assert_eq!(key.len(), 64);
    assert!(key.chars().all(|c| c.is_ascii_digit() || ('a'..='f').contains(&c)));
    assert_eq!(from_hex(&key).unwrap().len(), 32);
    assert_ne!(new_master_key(), key);
}

#[test]
fn list_total_counts_the_items() {
    assert_eq!(total_of(0), 0);
    assert_eq!(total_of(3), 3);
    assert_eq!(total_of(u32::MAX as usize), u32::MAX);
}

#[test]
fn auth_errors_have_their_status_and_sentence() {
    let cases = [
        (AuthError::WrongCredentials, 401, "Wrong credentials"),
        (AuthError::MissingCredentials, 400, "Missing credentials"),
        (AuthError::TokenCreation, 500, "Token creation error"),
        (AuthError::InvalidToken, 400, "Invalid token"),
        (AuthError::MissingStorage, 400, "Missing storage configuration"),
        (AuthError::InvalidCredentials, 400, "Email or password is incorrect"),
        (AuthError::EmailAlreadyTaken, 400, "Email already in use"),
        (AuthError::UserNotFound, 400, "User not Found"),
        (AuthError::HashFormat, 500, "Password hash error"),
        (AuthError::Storage, 500, "Storage error"),
    ];
    for (error, status, sentence) in cases {
        assert_eq!(error.status_code(), status);
        assert_eq!(error.message(), sentence);
        let (code, body) = error.into_response();
        assert_eq!(code, status);
        assert_eq!(body.error, vec![("message".to_string(), sentence.to_string())]);
    }
}

#[test]
fn account_errors_have_their_status_and_sentence() {
    let cases = [
        (AccountError::InvalidAccountGroup, 400, "Invalid Account Group"),
        (AccountError::NotFound, 404, "Account not found"),
        (AccountError::MissingMasterKey, 500, "Missing key"),
        (AccountError::Cipher(CipherError::AuthenticationFailure), 500, "Cipher error"),
        (AccountError::Storage, 500, "Storage error"),
    ];
    for (error, status, sentence) in cases {
        assert_eq!(error.status_code(), status);
        assert_eq!(error.message(), sentence);
        let (code, body) = error.into_response();
        assert_eq!(code, status);
        assert_eq!(body.error, vec![("message".to_string(), sentence.to_string())]);
    }
    let body = ErrorResponse::message("text".to_string());
    assert_eq!(body.error, vec![("message".to_string(), "text".to_string())]);
}

#[test]
fn mailboxes_and_the_recovery_notice() {
    let named = EmailAddress::new(Some("Alice"), "alice@example.com");
    assert_eq!(named.name, Some("Alice".to_string()));
    assert_eq!(named.email, "alice@example.com");
    let bare = EmailAddress::new(None, "bob@example.com");
    assert_eq!(bare.name, None);
    let copy = named.clone();
    assert_eq!((copy.name, copy.email), (named.name, named.email));
    let system = MailService::system_mailbox();
    assert_eq!(system.name, Some("OpenPasswd".to_string()));
    assert_eq!(system.email, "openpasswd@gmail.com");
    let mail = MailService::password_recovery_mail("Alice", "alice@example.com", "s3cr3t");
    assert_eq!(mail.to.email, "alice@example.com");
    assert_eq!(mail.subject, "Password recovery");
    assert!(matches!(mail.body, MessageBody::Text(t) if t == "Password recovery: s3cr3t"));
}

#[test]
fn profile_remembers_what_it_is_told() {
    let mut profile = Profile::new();
    assert!(profile.needs_login());
    assert_eq!(profile.email(), None);
    assert_eq!(profile.device_name(), None);
    assert_eq!(profile.access_token(), None);
    assert_eq!(profile.refresh_token(), None);
    profile.set_email("alice@example.com".to_string());
    profile.set_device_name("laptop".to_string());
    assert_eq!(profile.email(), Some("alice@example.com"));
    assert_eq!(profile.device_name(), Some("laptop"));
    assert_eq!(profile.access_token(), None);
    profile.set_tokens(Some("a".to_string()), Some("r".to_string()));
    assert!(!profile.needs_login());
    assert_eq!(profile.access_token(), Some("a"));
    assert_eq!(profile.refresh_token(), Some("r"));
    profile.set_access_token("a2".to_string());
    assert_eq!(profile.access_token(), Some("a2"));
    assert_eq!(profile.refresh_token(), Some("r"));
    profile.set_refresh_token("r2".to_string());
    assert_eq!(profile.refresh_token(), Some("r2"));
    profile.set_tokens(None, None);
    assert_eq!(profile.access_token(), None);
    assert_eq!(profile.refresh_token(), None);
    assert_eq!(profile.email(), Some("alice@example.com"));
    let restored = Profile::from_parts(Some("e".to_string()), None, Some("t".to_string()), None);
    assert_eq!(restored.email(), Some("e"));
    assert_eq!(restored.device_name(), None);
    assert_eq!(restored.access_token(), Some("t"));
    assert_eq!(restored.refresh_token(), None);
}

#[test]
fn login_asks_again_when_clean_or_nothing_is_remembered() {
    let login = Login::new();
    assert!(!login.clean);
    assert_eq!(login.remembered(Some("alice@example.com")), Some("alice@example.com".to_string()));
    assert_eq!(login.remembered(None), None);
    let clean = Login { clean: true };
    assert_eq!(clean.remembered(Some("alice@example.com")), None);
    assert_eq!(clean.remembered(None), None);
    let request = Login::request("alice@example.com".to_string(), "pw1".to_string());
    assert_eq!(request.email, "alice@example.com");
    assert_eq!(request.password, "pw1");
    assert_eq!(request.device_name, Some("XXX".to_string()));
    assert_eq!(request.refresh_token, Some(RefreshTokenType::Token));
}

#[test]
fn generator_makes_passwords_of_its_size() {
    let generator = Generator::new();
    assert_eq!(generator.size, 16);
    assert!(!generator.print);
    assert_eq!(generator.password().len(), 16);
    let long = Generator { size: 40, print: true };
    let password = long.password();
    assert_eq!(password.len(), 40);
    assert!(password.chars().all(|c| c.is_ascii_alphanumeric()));
}

#[test]
fn client_addresses_and_expected_answers() {
    assert_eq!(BASE_URL, "https://api.openpasswd.com");
    assert_eq!(Endpoint::AuthRegister.url(), "https://api.openpasswd.com/api/auth/user");
    assert_eq!(Endpoint::AuthToken.url(), "https://api.openpasswd.com/api/auth/token");
    assert_eq!(
        Endpoint::AuthRefreshToken.url(),
        "https://api.openpasswd.com/api/auth/refresh_token"
    );
    assert_eq!(Endpoint::AuthLogout.url(), "https://api.openpasswd.com/api/auth/logout");
    assert_eq!(Endpoint::ListGroups.url(), "https://api.openpasswd.com/api/accounts/groups");
    assert_eq!(Endpoint::RegisterGroup.url(), "https://api.openpasswd.com/api/accounts/groups");
    assert_eq!(Endpoint::ListAccounts.url(), "https://api.openpasswd.com/api/accounts");
    assert_eq!(Endpoint::RegisterAccount.url(), "https://api.openpasswd.com/api/accounts");
    assert_eq!(
        OpenPasswdApi::list_accounts_url(&None),
        "https://api.openpasswd.com/api/accounts"
    );
    assert_eq!(
        OpenPasswdApi::list_accounts_url(&Some(12)),
        "https://api.openpasswd.com/api/accounts?group_id=12"
    );
    assert_eq!(
        OpenPasswdApi::list_accounts_url(&Some(-3)),
        "https://api.openpasswd.com/api/accounts?group_id=-3"
    );
    assert_eq!(OpenPasswdApi::get_account_url(5), "https://api.openpasswd.com/api/accounts/5");
    for created in [Endpoint::AuthRegister, Endpoint::RegisterGroup, Endpoint::RegisterAccount] {
        assert_eq!(created.success_status(), 201);
    }
    for read in [
        Endpoint::AuthToken,
        Endpoint::AuthRefreshToken,
        Endpoint::AuthLogout,
        Endpoint::ListGroups,
        Endpoint::ListAccounts,
        Endpoint::GetAccount,
    ] {
        assert_eq!(read.success_status(), 200);
    }
}

#[test]
fn client_keeps_the_tokens_of_a_login() {
    let mut api = OpenPasswdApi::new(Profile::new());
    api.profile.set_email("alice@example.com".to_string());
    api.keep_tokens(AccessToken {
        access_token: "a".to_string(),
        token_type: "Bearer".to_string(),
        refresh_token: Some("r".to_string()),
    });
    assert_eq!(api.profile.access_token(), Some("a"));
    assert_eq!(api.profile.refresh_token(), Some("r"));
    assert_eq!(api.profile.email(), Some("alice@example.com"));
    api.keep_tokens(AccessToken {
        access_token: "b".to_string(),
        token_type: "Bearer".to_string(),
        refresh_token: None,
    });
    assert_eq!(api.profile.access_token(), Some("b"));
    assert_eq!(api.profile.refresh_token(), None);
}

#[test]
fn bytes_are_written_in_hexadecimal_and_read_back() {
    assert_eq!(to_hex(&[]), "");
    assert_eq!(to_hex(&[0]), "00");
    assert_eq!(to_hex(&[0x0f, 0xf0, 0xff, 0x10, 0xa9]), "0ff0ff10a9");
    assert_eq!(to_hex(b"67dc"), "36376463");
    assert_eq!(from_hex(""), Some(vec![]));
    assert_eq!(from_hex("00"), Some(vec![0]));
    assert_eq!(from_hex("0ff0ff10a9"), Some(vec![0x0f, 0xf0, 0xff, 0x10, 0xa9]));
    assert_eq!(from_hex("0FF0Ff10A9"), Some(vec![0x0f, 0xf0, 0xff, 0x10, 0xa9]));
    for bad in ["0", "000", "0g", "g0", " 00", "00 ", "0x00", "é0", "+1", "-1"] {
        assert_eq!(from_hex(bad), None);
    }
    let all: Vec<u8> = (0..=255).collect();
    assert_eq!(from_hex(&to_hex(&all)), Some(all));
}
