use email_verification::credential::{hash_with_salt, verify};
use email_verification::error::ApiError;
use email_verification::registration::{
    invite, invite_with, new_user, register, register_with, Invitation, RegistrationMessage,
};
use email_verification::service::{TokenService, DEFAULT_HORIZON_SECS};
use email_verification::store::TokenStore;

const ALICE: &str = "alice@example.com";
const BOB: &str = "bob@example.com";
const PREFIX: &str = "Your confirmation code is: ";

fn service() -> TokenService {
    TokenService::new(TokenStore::new(), DEFAULT_HORIZON_SECS)
}

fn message(token: &str, email: &str, password: &str) -> RegistrationMessage {
    RegistrationMessage {
        token: token.to_string(),
        email: email.to_string(),
        password: password.to_string(),
    }
}

fn invalid_token() -> ApiError {
    ApiError { status_code: 403, message: "Invalid token".to_string() }
}

fn token_expired() -> ApiError {
    ApiError { status_code: 403, message: "Token expired".to_string() }
}

fn token_text(invitation: &Invitation) -> String {
    invitation.html.strip_prefix(PREFIX).unwrap().to_string()
}

#[test]
fn invitation_carries_the_token_text() {
    let mut service = service();
    let invitation = invite_with(&mut service, ALICE, [0x5a; 32], 2_000).unwrap();
    let expected = Invitation {
        recipient: ALICE.to_string(),
        subject: "Confirm your email".to_string(),
        html: format!("Your confirmation code is: {}", "5a".repeat(32)),
        expires_at: 88_400,
    };
    assert_eq!(invitation, expected);
}

#[test]
fn invitation_fails_when_no_token_can_be_issued() {
    let mut service = service();
    let fault =
        ApiError { status_code: 500, message: "Failed to create verification token".to_string() };
    invite_with(&mut service, ALICE, [1; 32], 0).unwrap();
    assert_eq!(invite_with(&mut service, BOB, [1; 32], 0), Err(fault.clone()));
    assert_eq!(invite_with(&mut service, BOB, [2; 32], i64::MAX), Err(fault));
}

#[test]
fn scenario_register_once() {
    let mut service = service();
    let invitation = invite_with(&mut service, ALICE, [0x21; 32], 5_000).unwrap();
    let text = token_text(&invitation);
    let request = message(&text, ALICE, "hunter2");
    let user = register_with(&mut service, &request, 42, 5_000, &[3; 32]).unwrap();
    assert_eq!(user.id, 42);
    assert_eq!(user.email, ALICE);
    assert_ne!(user.password, "hunter2");
    assert_eq!(verify(&user.password, b"hunter2"), Ok(true));
    assert_eq!(register_with(&mut service, &request, 43, 5_000, &[3; 32]), Err(invalid_token()));
}

#[test]
fn scenario_expired() {
    let mut service = service();
    let invitation = invite_with(&mut service, ALICE, [0x22; 32], 5_000).unwrap();
    let request = message(&token_text(&invitation), ALICE, "hunter2");
    assert_eq!(
        register_with(&mut service, &request, 1, 5_000 + 86_400, &[3; 32]),
        Err(token_expired())
    );
    assert_eq!(
        register_with(&mut service, &request, 1, 5_000 + 86_401, &[3; 32]),
        Err(token_expired())
    );
}

#[test]
fn scenario_other_address() {
    let mut service = service();
    let invitation = invite_with(&mut service, ALICE, [0x23; 32], 5_000).unwrap();
    let text = token_text(&invitation);
    assert_eq!(
        register_with(&mut service, &message(&text, BOB, "hunter2"), 1, 5_001, &[3; 32]),
        Err(invalid_token())
    );
    assert!(register_with(&mut service, &message(&text, ALICE, "hunter2"), 1, 5_001, &[3; 32]).is_ok());
}

#[test]
fn malformed_and_unknown_tokens_look_alike() {
    let mut service = service();
    invite_with(&mut service, ALICE, [0x24; 32], 5_000).unwrap();
    for text in ["", "not hex", "24", &"24".repeat(31), &"25".repeat(32), &"2".repeat(63)] {
        assert_eq!(
            register_with(&mut service, &message(text, ALICE, "hunter2"), 1, 5_001, &[3; 32]),
            Err(invalid_token())
        );
    }
}

#[test]
fn token_is_spent_when_hashing_fails() {
    let mut service = service();
    let invitation = invite_with(&mut service, ALICE, [0x26; 32], 5_000).unwrap();
    let request = message(&token_text(&invitation), ALICE, "hunter2");
    let fault = ApiError { status_code: 500, message: "Failed to hash password".to_string() };
    assert_eq!(register_with(&mut service, &request, 1, 5_001, b"short"), Err(fault));
    assert_eq!(register_with(&mut service, &request, 1, 5_001, &[3; 32]), Err(invalid_token()));
}

#[test]
fn scenario_full_lifecycle() {
    let mut service = service();
    let issued_at = 1_700_000_000;

    let first = invite(&mut service, ALICE, issued_at).unwrap();
    let text = token_text(&first);
    let user = register(&mut service, &message(&text, ALICE, "pw"), 1, issued_at).unwrap();
    assert_eq!(user.id, 1);
    assert_eq!(user.email, ALICE);
    assert_eq!(user.verify_password(b"pw"), Ok(true));
    assert_eq!(
        register(&mut service, &message(&text, ALICE, "pw"), 2, issued_at),
        Err(invalid_token())
    );

    let second = invite(&mut service, ALICE, issued_at).unwrap();
    let past_expiry = issued_at + 86_400 + 1;
    assert_eq!(
        register(&mut service, &message(&token_text(&second), ALICE, "pw"), 2, past_expiry),
        Err(token_expired())
    );

    let third = invite(&mut service, ALICE, issued_at).unwrap();
    assert_eq!(
        register(&mut service, &message(&token_text(&third), BOB, "pw"), 2, issued_at),
        Err(invalid_token())
    );
}

#[test]
fn invitation_under_a_drawn_identifier() {
    let mut service = service();
    let invitation = invite(&mut service, ALICE, 1_000).unwrap();
    assert_eq!(invitation.recipient, ALICE);
    assert_eq!(invitation.subject, "Confirm your email");
    assert_eq!(invitation.expires_at, 87_400);
    let text = token_text(&invitation);
    assert_eq!(text.len(), 64);
    assert!(text.bytes().all(|b| b.is_ascii_digit() || (b'a'..=b'f').contains(&b)));
}

#[test]
fn invitation_beyond_the_clock_fails() {
    let mut service = service();
    let fault =
        ApiError { status_code: 500, message: "Failed to create verification token".to_string() };
    assert_eq!(invite(&mut service, ALICE, i64::MAX - 86_399), Err(fault));
    assert!(invite(&mut service, ALICE, i64::MAX - 86_400).is_ok());
}

#[test]
fn register_at_the_expiry_is_too_late() {
    let mut service = TokenService::new(TokenStore::new(), 0);
    let invitation = invite(&mut service, ALICE, 77).unwrap();
    assert_eq!(invitation.expires_at, 77);
    let request = message(&token_text(&invitation), ALICE, "pw");
    assert_eq!(register(&mut service, &request, 1, 77), Err(token_expired()));
    assert_eq!(register(&mut service, &request, 1, 76).map(|user| user.id), Ok(1));
}

#[test]
fn two_invitations_carry_different_tokens() {
    let mut service = service();
    let first = invite(&mut service, ALICE, 0).unwrap();
    let second = invite(&mut service, ALICE, 0).unwrap();
    assert_ne!(first.html, second.html);
}

#[test]
fn new_user_is_the_message_with_the_password_hashed() {
    let request = message("", ALICE, "hunter2");
    let user = new_user(&request, 9, &[4; 32]).unwrap();
    assert_eq!(user.id, 9);
    assert_eq!(user.email, ALICE);
    assert_eq!(Ok(user.password), hash_with_salt(b"hunter2", &[4; 32]));
    let fault = ApiError { status_code: 500, message: "Failed to hash password".to_string() };
    assert_eq!(new_user(&request, 9, &[4; 7]), Err(fault));
}
