//! The user record and its password credential.

use vstd::prelude::*;
use vstd::utf8::encode_utf8;
use crate::credential::{
    argon2_encoding, argon2_verdict, binds_salt, hash, hash_with_salt, hashable, hashing_failure,
    is_hash_of, verification_failure, verify, SALT_LEN,
};
use crate::error::ApiError;

verus! {

/// A user. `password` holds the plaintext only between the moment the record
/// is made and the call of `hash_password`; what is stored is the encoded hash.
#[derive(Debug, PartialEq, Eq)]
pub struct User {
    pub id: i32,
    pub email: String,
    pub password: String,
}

/// A user as plain values.
pub struct UserView {
    pub id: i32,
    pub email: Seq<char>,
    pub password: Seq<char>,
}

impl View for User {
    type V = UserView;

    open spec fn view(&self) -> UserView {
        UserView { id: self.id, email: self.email@, password: self.password@ }
    }
}

impl Clone for User {
    fn clone(&self) -> (copy: Self)
        ensures
            copy@ == self@,
    {
        User { id: self.id, email: self.email.clone(), password: self.password.clone() }
    }
}

impl User {
    /// A record with the given fields.
    pub fn new(id: i32, email: String, password: String) -> (user: User)
        ensures
            user@ == (UserView { id, email: email@, password: password@ }),
    {
        User { id, email, password }
    }

    /// Replaces the plaintext in `password` by its hash under the given salt.
    /// On failure the record is left as it was.
    pub fn hash_password_with_salt(&mut self, salt: &[u8]) -> (r: Result<(), ApiError>)
        ensures
            final(self).id == old(self).id,
            final(self).email@ == old(self).email@,
            r is Ok <==> hashable(encode_utf8(old(self).password@), salt@),
            match r {
                Ok(_) => {
                    &&& argon2_encoding(encode_utf8(old(self).password@), salt@) == Some(
                        final(self).password@,
                    )
                    &&& binds_salt(final(self).password@, salt@)
                },
                Err(e) => {
                    &&& argon2_encoding(encode_utf8(old(self).password@), salt@) is None
                    &&& e@ == hashing_failure()
                    &&& final(self).password@ == old(self).password@
                },
            },
    {
        match hash_with_salt(self.password.as_str().as_bytes(), salt) {
            Ok(encoded) => {
                self.password = encoded;
                Ok(())
            },
            Err(e) => Err(e),
        }
    }

    /// Replaces the plaintext in `password` by its hash under a freshly drawn
    /// salt. Fails where no salt is to be had or the password is too long, and
    /// then leaves the record as it was.
    pub fn hash_password(&mut self) -> (r: Result<(), ApiError>)
        ensures
            final(self).id == old(self).id,
            final(self).email@ == old(self).email@,
            r is Ok ==> encode_utf8(old(self).password@).len() <= u32::MAX,
            match r {
                Ok(_) => {
                    &&& is_hash_of(final(self).password@, encode_utf8(old(self).password@))
                    &&& exists|salt: Seq<u8>|
                        salt.len() == SALT_LEN && #[trigger] binds_salt(final(self).password@, salt)
                },
                Err(e) => e@ == hashing_failure() && final(self).password@ == old(self).password@,
            },
    {
        match hash(self.password.as_str().as_bytes()) {
            Ok(encoded) => {
                self.password = encoded;
                Ok(())
            },
            Err(e) => Err(e),
        }
    }

    /// Checks a candidate password against the stored hash. A hash that was
    /// made of the candidate is always found to match it.
    pub fn verify_password(&self, password: &[u8]) -> (r: Result<bool, ApiError>)
        ensures
            match r {
                Ok(accepted) => argon2_verdict(self.password@, password@) == Some(accepted),
                Err(e) => argon2_verdict(self.password@, password@) is None && e@
                    == verification_failure(),
            },
            is_hash_of(self.password@, password@) ==> r is Ok && r->Ok_0,
    {
        verify(self.password.as_str(), password)
    }
}

} // verus!
