use email_verification::credential::{
    hash, hash_with_salt, hashing_result, verification_result, verify, SALT_LEN,
};
use email_verification::error::ApiError;
use email_verification::user::User;

fn hashing_fault() -> ApiError {
    ApiError { status_code: 500, message: "Failed to hash password".to_string() }
}

fn verification_fault() -> ApiError {
    ApiError { status_code: 500, message: "Failed to verify password".to_string() }
}

#[test]
fn hash_is_accepted_for_its_password_only() {
    let encoded = hash(b"correct horse").unwrap();
    assert_eq!(verify(&encoded, b"correct horse"), Ok(true));
    assert_eq!(verify(&encoded, b"correct horsf"), Ok(false));
    assert_eq!(verify(&encoded, b""), Ok(false));
}

#[test]
fn empty_password_can_be_hashed() {
    let encoded = hash(b"").unwrap();
    assert_eq!(verify(&encoded, b""), Ok(true));
    assert_eq!(verify(&encoded, b" "), Ok(false));
}

#[test]
fn two_hashes_of_one_password_differ() {
    let first = hash(b"secret").unwrap();
    let second = hash(b"secret").unwrap();
    assert_ne!(first, second);
    assert_eq!(verify(&first, b"secret"), Ok(true));
    assert_eq!(verify(&second, b"secret"), Ok(true));
}

#[test]
fn encoded_hash_describes_itself() {
    assert_eq!(SALT_LEN, 32);
    let encoded = hash_with_salt(b"password", b"somesalt").unwrap();
    assert!(encoded.starts_with("$argon2id$v=19$m=19456,t=2,p=1$c29tZXNhbHQ$"));
    let digest = encoded.rsplit('$').next().unwrap();
    assert_eq!(digest.len(), 43);
    assert_ne!(encoded, "password");
}

#[test]
fn hash_depends_on_password_and_salt_alone() {
    let first = hash_with_salt(b"password", b"somesalt").unwrap();
    let again = hash_with_salt(b"password", b"somesalt").unwrap();
    let salted = hash_with_salt(b"password", b"othersalt").unwrap();
    assert_eq!(first, again);
    assert_ne!(first, salted);
}

#[test]
fn short_salt_is_a_hashing_fault() {
    assert_eq!(hash_with_salt(b"password", b""), Err(hashing_fault()));
    assert_eq!(hash_with_salt(b"password", b"7 bytes"), Err(hashing_fault()));
    assert!(hash_with_salt(b"password", b"8 bytes!").is_ok());
}

#[test]
fn hash_of_other_parameters_is_read_by_what_it_says() {
    let encoded = "$argon2i$v=19$m=4096,t=3,p=1$c29tZXNhbHQ\
                   $iWh06vD8Fy27wf9npn6FXWiCX4K6pW6Ue1Bnzz07Z8A";
    assert_eq!(verify(encoded, b"password"), Ok(true));
    assert_eq!(verify(encoded, b"Password"), Ok(false));
}

#[test]
fn corrupt_hash_is_a_verification_fault() {
    for encoded in [
        "",
        "password",
        "$argon2id$v=19$m=19456,t=2,p=1$c29tZXNhbHQ",
        "$argon2xx$v=19$m=4096,t=3,p=1$c29tZXNhbHQ$iWh06vD8Fy27wf9npn6FXWiCX4K6pW6Ue1Bnzz07Z8A",
        "$argon2i$v=19$m=4096,t=3,p=1$c29tZXNhbHQ$!!!",
    ] {
        assert_eq!(verify(encoded, b"password"), Err(verification_fault()));
    }
}

#[test]
fn results_follow_what_argon2_made() {
    assert_eq!(hashing_result(Some("$argon2id$x".to_string())), Ok("$argon2id$x".to_string()));
    assert_eq!(hashing_result(None), Err(hashing_fault()));
    assert_eq!(verification_result(Some(true)), Ok(true));
    assert_eq!(verification_result(Some(false)), Ok(false));
    assert_eq!(verification_result(None), Err(verification_fault()));
}

#[test]
fn user_password_is_replaced_by_its_hash() {
    let mut user = User::new(7, "alice@example.com".to_string(), "s3cret".to_string());
    assert_eq!(user.hash_password(), Ok(()));
    assert_eq!(user.id, 7);
    assert_eq!(user.email, "alice@example.com");
    assert_ne!(user.password, "s3cret");
    assert!(user.password.starts_with("$argon2id$v=19$m=19456,t=2,p=1$"));
    assert_eq!(user.verify_password(b"s3cret"), Ok(true));
    assert_eq!(user.verify_password(b"S3cret"), Ok(false));
}

#[test]
fn user_password_with_wide_characters() {
    let mut user = User::new(1, "a@b.c".to_string(), "p\u{e4}ssw\u{f6}rd".to_string());
    assert_eq!(user.hash_password_with_salt(&[9; 32]), Ok(()));
    assert_eq!(user.verify_password("p\u{e4}ssw\u{f6}rd".as_bytes()), Ok(true));
    assert_eq!(user.verify_password(b"password"), Ok(false));
    let expected = hash_with_salt("p\u{e4}ssw\u{f6}rd".as_bytes(), &[9; 32]).unwrap();
    assert_eq!(user.password, expected);
}

#[test]
fn user_is_left_alone_when_hashing_fails() {
    let mut user = User::new(1, "a@b.c".to_string(), "secret".to_string());
    assert_eq!(user.hash_password_with_salt(b"short"), Err(hashing_fault()));
    assert_eq!(user, User::new(1, "a@b.c".to_string(), "secret".to_string()));
}

#[test]
fn user_with_unhashed_password_cannot_be_verified() {
    let user = User::new(1, "a@b.c".to_string(), "secret".to_string());
    assert_eq!(user.verify_password(b"secret"), Err(verification_fault()));
    assert_eq!(user.clone(), user);
}
