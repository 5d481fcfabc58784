//! Core of a passwordless ("passkey") authentication subsystem: the two-phase
//! public-key ceremonies for registration and authentication, the one-time
//! server-side state that bridges each ceremony's begin and complete steps,
//! the credential and account store the ceremonies read and update, and the
//! single-use tokens used for account verification and recovery.

pub mod engine;
pub mod errors;
pub mod pages;
pub mod posts;
pub mod service;
pub mod store;
pub mod validate;

use vstd::prelude::*;

verus! {

/// A fresh 128-bit identifier, used for ceremony state identifiers and
/// single-use tokens.
///
/// Relies on uuid::Uuid::new_v4: a version-4 UUID drawn from a
/// cryptographically secure random source; nothing is promised of its value.
#[verifier::external_body]
pub(crate) fn fresh_id() -> u128 {
    uuid::Uuid::new_v4().as_u128()
}

} // verus!
