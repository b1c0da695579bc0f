//! Password credentials: salted, memory-hard hashes in a self-describing
//! encoded form, made and checked by Argon2.

use vstd::prelude::*;
use crate::error::{ApiError, ApiErrorView, INTERNAL_ERROR};
use crate::random::random_block;

verus! {

/// Length in bytes of the salt drawn for each hash.
pub const SALT_LEN: usize = 32;

/// The encoded hash that Argon2 with its default parameters gives for a
/// password and a salt; `None` where it refuses them.
pub uninterp spec fn argon2_encoding(password: Seq<u8>, salt: Seq<u8>) -> Option<Seq<char>>;

/// What Argon2 says of an encoded hash and a candidate password: whether the
/// candidate matches; `None` where the encoded hash cannot be read.
pub uninterp spec fn argon2_verdict(encoded: Seq<char>, candidate: Seq<u8>) -> Option<bool>;

/// True when `encoded` is the hash of `password` under some salt.
pub open spec fn is_hash_of(encoded: Seq<char>, password: Seq<u8>) -> bool {
    exists|salt: Seq<u8>| argon2_encoding(password, salt) == Some(encoded)
}

/// True when `encoded` can only have been made with the salt `salt`.
pub open spec fn binds_salt(encoded: Seq<char>, salt: Seq<u8>) -> bool {
    forall|password: Seq<u8>, other: Seq<u8>| #[trigger]
        argon2_encoding(password, other) == Some(encoded) ==> other == salt
}

/// The lengths that Argon2 takes for a password and a salt.
pub open spec fn hashable(password: Seq<u8>, salt: Seq<u8>) -> bool {
    password.len() <= u32::MAX && 8 <= salt.len() <= u32::MAX
}

#[verifier::external_type_specification]
#[verifier::external_body]
pub struct ExArgon2Error(argon2::Error);

/// `argon2::hash_encoded` with `argon2::Config::default()`. Trusted: the
/// result depends on the password and the salt alone; with the default
/// parameters the call fails only on a password or a salt whose length is
/// out of range; and the encoded text carries the salt, so that no other
/// salt gives the same text.
#[verifier::external_body]
fn argon2_hash(password: &[u8], salt: &[u8]) -> (r: Result<String, argon2::Error>)
    ensures
        match r {
            Ok(encoded) => argon2_encoding(password@, salt@) == Some(encoded@),
            Err(_) => argon2_encoding(password@, salt@) is None,
        },
        r is Ok <==> hashable(password@, salt@),
        r matches Ok(encoded) ==> binds_salt(encoded@, salt@),
{
    argon2::hash_encoded(password, salt, &argon2::Config::default())
}

/// `argon2::verify_encoded`. Trusted: the result depends on the encoded hash
/// and the candidate alone, and a hash that `argon2::hash_encoded` made of
/// a password is found to match that password. The work it does grows with
/// the cost parameters written in the encoded hash.
#[verifier::external_body]
fn argon2_verify(encoded: &str, candidate: &[u8]) -> (r: Result<bool, argon2::Error>)
    ensures
        match r {
            Ok(accepted) => argon2_verdict(encoded@, candidate@) == Some(accepted),
            Err(_) => argon2_verdict(encoded@, candidate@) is None,
        },
        is_hash_of(encoded@, candidate@) ==> r is Ok && r->Ok_0,
{
    argon2::verify_encoded(encoded, candidate)
}

/// The payload for a hashing fault.
pub open spec fn hashing_failure() -> ApiErrorView {
    ApiErrorView { status_code: INTERNAL_ERROR, message: "Failed to hash password"@ }
}

/// The payload for a verification fault.
pub open spec fn verification_failure() -> ApiErrorView {
    ApiErrorView { status_code: INTERNAL_ERROR, message: "Failed to verify password"@ }
}

/// What hashing returns, given what Argon2 made: the encoded hash, or the
/// hashing fault where it made none.
pub fn hashing_result(outcome: Option<String>) -> (r: Result<String, ApiError>)
    ensures
        match outcome {
            Some(encoded) => r == Ok::<String, ApiError>(encoded),
            None => r matches Err(e) && e@ == hashing_failure(),
        },
{
    match outcome {
        Some(encoded) => Ok(encoded),
        None => Err(ApiError::new(INTERNAL_ERROR, "Failed to hash password")),
    }
}

/// What verification returns, given what Argon2 said: its verdict, or the
/// verification fault where it gave none.
pub fn verification_result(outcome: Option<bool>) -> (r: Result<bool, ApiError>)
    ensures
        match outcome {
            Some(accepted) => r == Ok::<bool, ApiError>(accepted),
            None => r matches Err(e) && e@ == verification_failure(),
        },
{
    match outcome {
        Some(accepted) => Ok(accepted),
        None => Err(ApiError::new(INTERNAL_ERROR, "Failed to verify password")),
    }
}

/// Hashes a password with the given salt.
pub fn hash_with_salt(password: &[u8], salt: &[u8]) -> (r: Result<String, ApiError>)
    ensures
        r is Ok <==> hashable(password@, salt@),
        match r {
            Ok(encoded) => argon2_encoding(password@, salt@) == Some(encoded@) && binds_salt(
                encoded@,
                salt@,
            ),
            Err(e) => argon2_encoding(password@, salt@) is None && e@ == hashing_failure(),
        },
{
    let outcome = match argon2_hash(password, salt) {
        Ok(encoded) => Some(encoded),
        Err(_) => None,
    };
    hashing_result(outcome)
}

/// Hashes a password with a freshly drawn salt of `SALT_LEN` bytes. Whether
/// a salt can be drawn, and which, is left to chance: a result is a hash of
/// the password under some salt, and the call fails where no salt is to be
/// had or the password is too long.
pub fn hash(password: &[u8]) -> (r: Result<String, ApiError>)
    ensures
        r is Ok ==> password@.len() <= u32::MAX,
        match r {
            Ok(encoded) => exists|salt: Seq<u8>|
                salt.len() == SALT_LEN && #[trigger] argon2_encoding(password@, salt) == Some(
                    encoded@,
                ) && binds_salt(encoded@, salt),
            Err(e) => e@ == hashing_failure(),
        },
        r matches Ok(encoded) ==> is_hash_of(encoded@, password@),
{
    match random_block() {
        Some(salt) => hash_with_salt(password, salt.as_slice()),
        None => hashing_result(None),
    }
}

/// Checks a candidate password against an encoded hash.
pub fn verify(encoded: &str, candidate: &[u8]) -> (r: Result<bool, ApiError>)
    ensures
        match r {
            Ok(accepted) => argon2_verdict(encoded@, candidate@) == Some(accepted),
            Err(e) => argon2_verdict(encoded@, candidate@) is None && e@ == verification_failure(),
        },
        is_hash_of(encoded@, candidate@) ==> (r matches Ok(accepted) && accepted),
{
    let outcome = match argon2_verify(encoded, candidate) {
        Ok(accepted) => Some(accepted),
        Err(_) => None,
    };
    verification_result(outcome)
}

/// Hashes made with different salts differ, whatever the passwords. So two
/// hashes of one password are equal only if the same salt was drawn twice.
pub proof fn lemma_distinct_salts_distinct_hashes(
    first: Seq<char>,
    first_salt: Seq<u8>,
    second_password: Seq<u8>,
    second_salt: Seq<u8>,
)
    requires
        binds_salt(first, first_salt),
        first_salt != second_salt,
    ensures
        argon2_encoding(second_password, second_salt) != Some(first),
{
}

} // verus!
