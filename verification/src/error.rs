//! Failure kinds of token validation and the payload shown to the caller.

use vstd::prelude::*;

verus! {

/// Status code of every rejected token.
pub const FORBIDDEN: u16 = 403;

/// Status code of a fault inside the credential helper.
pub const INTERNAL_ERROR: u16 = 500;

/// Why a token was not accepted.
#[derive(Clone, Copy, Debug, PartialEq, Eq, Structural)]
pub enum VerificationError {
    /// The text is not the hex form of an identifier of the right length.
    MalformedToken,
    /// No live token has this identifier.
    NotFound,
    /// The token is bound to another address.
    EmailMismatch,
    /// The token's time has run out.
    Expired,
}

/// What a caller outside the service gets to see of a failure.
#[derive(Debug, PartialEq, Eq)]
pub struct ApiError {
    pub status_code: u16,
    pub message: String,
}

/// An `ApiError` as plain values.
pub struct ApiErrorView {
    pub status_code: u16,
    pub message: Seq<char>,
}

impl View for ApiError {
    type V = ApiErrorView;

    open spec fn view(&self) -> ApiErrorView {
        ApiErrorView { status_code: self.status_code, message: self.message@ }
    }
}

impl Clone for ApiError {
    fn clone(&self) -> (copy: Self)
        ensures
            copy@ == self@,
    {
        ApiError { status_code: self.status_code, message: self.message.clone() }
    }
}

impl ApiError {
    pub fn new(status_code: u16, message: &str) -> (e: ApiError)
        ensures
            e@ == (ApiErrorView { status_code, message: message@ }),
    {
        ApiError { status_code, message: message.to_owned() }
    }
}

impl VerificationError {
    /// True of the three kinds that must look alike from outside.
    pub open spec fn is_generic(self) -> bool {
        self != VerificationError::Expired
    }

    /// The message shown for this kind: expiry has its own, all others share one.
    pub open spec fn public_message(self) -> Seq<char> {
        if self == VerificationError::Expired {
            "Token expired"@
        } else {
            "Invalid token"@
        }
    }

    /// The payload shown for this kind.
    pub open spec fn public_view(self) -> ApiErrorView {
        ApiErrorView { status_code: FORBIDDEN, message: self.public_message() }
    }

    /// Maps the failure to what the caller may see.
    pub fn to_api_error(self) -> (e: ApiError)
        ensures
            e@ == self.public_view(),
    {
        match self {
            VerificationError::Expired => ApiError::new(FORBIDDEN, "Token expired"),
            _ => ApiError::new(FORBIDDEN, "Invalid token"),
        }
    }
}

/// A malformed token, an unknown one and one bound to another address are
/// answered with one and the same payload, so the answer does not tell which
/// of the three happened.
pub proof fn lemma_generic_failures_look_alike(a: VerificationError, b: VerificationError)
    requires
        a.is_generic(),
        b.is_generic(),
    ensures
        a.public_view() == b.public_view(),
        a.public_view() == VerificationError::NotFound.public_view(),
{
}

/// An expired token is answered differently from the generic failures.
pub proof fn lemma_expiry_is_told_apart(e: VerificationError)
    requires
        e.is_generic(),
    ensures
        e.public_view() != VerificationError::Expired.public_view(),
{
    reveal_strlit("Token expired");
    reveal_strlit("Invalid token");
    assert("Token expired"@.len() == 13);
    assert("Invalid token"@[0] == 'I');
    assert("Token expired"@[0] == 'T');
}

} // verus!
