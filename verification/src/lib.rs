//! Single-use, time-bounded email verification tokens and salted password
//! credentials, with every function's behaviour stated as a Verus contract.
//!
//! A token is issued for an address, travels to the user as hex text, and is
//! accepted at most once, before its expiry and only together with the
//! address it was issued for. Time is a parameter throughout: the caller
//! reads the clock.

pub mod credential;
pub mod error;
pub mod hex_codec;
mod random;
pub mod registration;
pub mod service;
pub mod store;
pub mod token;
pub mod user;
