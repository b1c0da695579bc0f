//! Verification tokens and the store that keeps the live ones.

use vstd::prelude::*;
use vstd::utf8::encode_utf8_decode_utf8;
use crate::error::VerificationError;
use crate::hex_codec::{from_hex, hex_bytes, hex_text, is_hex_text, to_hex};

verus! {

/// Length in bytes of every token identifier.
pub const TOKEN_ID_LEN: usize = 32;

/// What a token entitles its bearer to.
#[derive(Clone, Copy, Debug, PartialEq, Eq, Structural)]
pub enum Purpose {
    /// Completing a registration for the bound address.
    Registration,
}

/// A single-use bearer credential bound to an email address.
#[derive(Debug, PartialEq, Eq)]
pub struct VerificationToken {
    /// Random identifier, the lookup key; sent to the user as hex text.
    pub id: Vec<u8>,
    /// The address the token was issued for.
    pub email: String,
    /// Seconds since the epoch from which on the token is dead.
    pub expires_at: i64,
    pub purpose: Purpose,
}

/// A token as plain values.
pub struct TokenView {
    pub id: Seq<u8>,
    pub email: Seq<char>,
    pub expires_at: int,
    pub purpose: Purpose,
}

impl View for VerificationToken {
    type V = TokenView;

    open spec fn view(&self) -> TokenView {
        TokenView {
            id: self.id@,
            email: self.email@,
            expires_at: self.expires_at as int,
            purpose: self.purpose,
        }
    }
}

impl Clone for VerificationToken {
    fn clone(&self) -> (copy: Self)
        ensures
            copy@ == self@,
    {
        VerificationToken {
            id: self.id.clone(),
            email: self.email.clone(),
            expires_at: self.expires_at,
            purpose: self.purpose,
        }
    }
}

/// Compares two byte strings.
pub fn bytes_equal(a: &[u8], b: &[u8]) -> (same: bool)
    ensures
        same == (a@ == b@),
{
    if a.len() != b.len() {
        return false;
    }
    let mut i: usize = 0;
    while i < a.len()
        invariant
            a@.len() == b@.len(),
            i <= a@.len(),
            forall|k: int| 0 <= k < i ==> a@[k] == b@[k],
        decreases a@.len() - i,
    {
        if a[i] != b[i] {
            return false;
        }
        i = i + 1;
    }
    assert(a@ =~= b@);
    true
}

/// Compares two texts.
pub fn same_text(a: &str, b: &str) -> (same: bool)
    ensures
        same == (a@ == b@),
{
    proof {
        encode_utf8_decode_utf8(a@);
        encode_utf8_decode_utf8(b@);
    }
    bytes_equal(a.as_bytes(), b.as_bytes())
}

/// The identifier that a token text stands for: the text must be the hex form
/// of exactly `TOKEN_ID_LEN` bytes, in either case; anything else is malformed.
pub open spec fn token_id_of(raw: Seq<char>) -> Option<Seq<u8>> {
    if is_hex_text(raw) && raw.len() == 2 * TOKEN_ID_LEN {
        Some(hex_bytes(raw))
    } else {
        None
    }
}

/// The text under which an identifier is sent to the user.
pub fn encode_token_id(id: &[u8]) -> (raw: String)
    ensures
        raw@ == hex_text(id@),
{
    to_hex(id)
}

/// Reads a token text back into an identifier.
pub fn decode_token_id(raw: &str) -> (r: Result<Vec<u8>, VerificationError>)
    ensures
        match r {
            Ok(id) => token_id_of(raw@) == Some(id@),
            Err(e) => e == VerificationError::MalformedToken && token_id_of(raw@) is None,
        },
{
    match from_hex(raw) {
        Some(id) => {
            if id.len() == TOKEN_ID_LEN {
                Ok(id)
            } else {
                Err(VerificationError::MalformedToken)
            }
        },
        None => Err(VerificationError::MalformedToken),
    }
}

} // verus!
