use vstd::prelude::*;

verus! {

/// The error taxonomy of the authentication core.
///
/// - `InvalidEmail`, `InvalidName`, `InvalidResponse`: a malformed input,
///   rejected before any state is touched.
/// - `RegistrationRefused`: the (reset mode, account exists) combination is
///   not allowed, rejected before any challenge or state is issued.
/// - `NoCredential`: authentication was begun for an account with no stored
///   credential.
/// - `CeremonyState`: the state identifier is unknown or already consumed;
///   the ceremony must restart from its begin step.
/// - `Verification`: the cryptographic verification of a client response
///   failed.
/// - `CeremonyUnavailable`: the ceremony engine could not construct a
///   challenge.
/// - `TokenNotFound`: a single-use token is unknown or already consumed.
/// - `Store`: the account record needed by a completing ceremony is no
///   longer in the state the begin step saw.
#[derive(Clone, Copy, Debug, PartialEq, Eq, Structural)]
pub enum AuthError {
    InvalidEmail,
    InvalidName,
    InvalidResponse,
    RegistrationRefused,
    NoCredential,
    CeremonyState,
    Verification,
    CeremonyUnavailable,
    TokenNotFound,
    Store,
}

impl AuthError {
    /// A short client-facing description of the error.
    pub fn describe(&self) -> (r: &'static str)
        ensures
            r@.len() > 0,
    {
        let s = match self {
            AuthError::InvalidEmail => "Invalid email format",
            AuthError::InvalidName => "Invalid display name",
            AuthError::InvalidResponse => "Invalid response format",
            AuthError::RegistrationRefused => "Invalid registration request",
            AuthError::NoCredential => "No credential is registered for this account",
            AuthError::CeremonyState => "Invalid or expired ceremony state",
            AuthError::Verification => "Verification failed",
            AuthError::CeremonyUnavailable => "Failed to start the ceremony",
            AuthError::TokenNotFound => "Invalid or already used token",
            AuthError::Store => "Account store conflict",
        };
        proof {
            reveal_strlit("Invalid email format");
            reveal_strlit("Invalid display name");
            reveal_strlit("Invalid response format");
            reveal_strlit("Invalid registration request");
            reveal_strlit("No credential is registered for this account");
            reveal_strlit("Invalid or expired ceremony state");
            reveal_strlit("Verification failed");
            reveal_strlit("Failed to start the ceremony");
            reveal_strlit("Invalid or already used token");
            reveal_strlit("Account store conflict");
        }
        s
    }
}

} // verus!
