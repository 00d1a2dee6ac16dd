//! Verified authentication and authorization core for an admin backend.
//!
//! The library covers credential verification, signed session token issuance
//! and validation, a per-process permission cache, the authorization gate
//! consulted on every protected request, and the login orchestration that
//! ties them together. I/O against durable storage and the HTTP layer live
//! outside the library and hand it plain values.

use vstd::prelude::*;
use vstd::string::StringExecFns;

pub mod audit;
pub mod config;
pub mod credentials;
pub mod digits;
pub mod gate;
pub mod jwt;
pub mod permission;
pub mod service;
pub mod time_utils;
pub mod vo;
pub mod web_embed;

verus! {

/// Errors surfaced by the authentication core.
///
/// Bad usernames and bad passwords are deliberately collapsed into
/// `InvalidCredentials` so a caller cannot probe which usernames exist,
/// while non-active account states are surfaced distinctly.
#[derive(Clone, Copy, Debug, PartialEq, Eq, Structural)]
pub enum AuthError {
    /// Unknown username or wrong password; intentionally indistinguishable.
    InvalidCredentials,
    /// The account exists and the password matched, but the account is disabled.
    AccountDisabled,
    /// The account exists and the password matched, but the account is locked.
    AccountLocked,
    /// Signing a session token failed; fatal for the login attempt.
    TokenCreationFailed,
    /// Missing, malformed, expired or unverifiable token, or no cached session.
    Unauthorized,
    /// A just-verified user has no profile record; an integrity error.
    NotFound,
}

impl AuthError {
    /// The user-facing message for this error. Credential and password
    /// problems share one deliberately vague message; account-status
    /// problems are named.
    pub open spec fn spec_message(self) -> Seq<char> {
        match self {
            AuthError::InvalidCredentials => "Invalid username or password"@,
            AuthError::AccountDisabled => "Account is disabled"@,
            AuthError::AccountLocked => "Account is locked"@,
            AuthError::TokenCreationFailed => "Failed to create token"@,
            AuthError::Unauthorized => "Unauthorized"@,
            AuthError::NotFound => "User not found"@,
        }
    }

    /// Renders the user-facing message.
    pub fn message(&self) -> (r: String)
        ensures
            r@ == self.spec_message(),
    {
        match self {
            AuthError::InvalidCredentials => String::from_str("Invalid username or password"),
            AuthError::AccountDisabled => String::from_str("Account is disabled"),
            AuthError::AccountLocked => String::from_str("Account is locked"),
            AuthError::TokenCreationFailed => String::from_str("Failed to create token"),
            AuthError::Unauthorized => String::from_str("Unauthorized"),
            AuthError::NotFound => String::from_str("User not found"),
        }
    }
}

} // verus!
