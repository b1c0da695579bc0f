use email_verification::error::{ApiError, VerificationError, FORBIDDEN, INTERNAL_ERROR};

#[test]
fn generic_failures_share_one_payload() {
    let expected = ApiError { status_code: 403, message: "Invalid token".to_string() };
    assert_eq!(VerificationError::MalformedToken.to_api_error(), expected);
    assert_eq!(VerificationError::NotFound.to_api_error(), expected);
    assert_eq!(VerificationError::EmailMismatch.to_api_error(), expected);
}

#[test]
fn expiry_has_its_own_payload() {
    let expected = ApiError { status_code: 403, message: "Token expired".to_string() };
    assert_eq!(VerificationError::Expired.to_api_error(), expected);
    assert_ne!(VerificationError::Expired.to_api_error(), VerificationError::NotFound.to_api_error());
}

#[test]
fn api_error_is_made_of_its_parts() {
    let e = ApiError::new(500, "Failed to hash password");
    assert_eq!(e.status_code, 500);
    assert_eq!(e.message, "Failed to hash password");
    assert_eq!(e.clone(), e);
    assert_eq!(FORBIDDEN, 403);
    assert_eq!(INTERNAL_ERROR, 500);
}
