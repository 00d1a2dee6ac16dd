//! Credential verification: deciding whether a login attempt is accepted
//! given what the credential repository returned and whether the one-way
//! password check matched.
//!
//! The repository lookup and the hash primitive live outside the library;
//! this module holds the decision they feed. A missing user and a wrong
//! password are deliberately indistinguishable, while a non-active account
//! state is surfaced distinctly once the username is known to exist.

use vstd::prelude::*;
use crate::AuthError;

verus! {

/// The closed set of account states a stored credential can be in.
#[derive(Clone, Copy, Debug, PartialEq, Eq, Structural)]
pub enum UserStatus {
    /// The account may log in.
    Active,
    /// The account has been switched off by an administrator.
    Disabled,
    /// The account has been locked.
    Locked,
}

/// The status encoded by a stored status code, if the code is recognized.
pub open spec fn spec_status_of_code(code: int) -> Option<UserStatus> {
    if code == 1 {
        Some(UserStatus::Active)
    } else if code == 2 {
        Some(UserStatus::Disabled)
    } else if code == 3 {
        Some(UserStatus::Locked)
    } else {
        None
    }
}

impl UserStatus {
    /// Decodes a stored status code; an unrecognized code is no status.
    pub fn from_code(code: i32) -> (r: Option<UserStatus>)
        ensures
            r == spec_status_of_code(code as int),
    {
        if code == 1 {
            Some(UserStatus::Active)
        } else if code == 2 {
            Some(UserStatus::Disabled)
        } else if code == 3 {
            Some(UserStatus::Locked)
        } else {
            None
        }
    }

    /// Accepts only an active account, naming the state that blocks any
    /// other.
    pub fn check_status(&self) -> (r: Result<(), AuthError>)
        ensures
            match self {
                UserStatus::Active => r is Ok,
                UserStatus::Disabled => r == Err::<(), AuthError>(AuthError::AccountDisabled),
                UserStatus::Locked => r == Err::<(), AuthError>(AuthError::AccountLocked),
            },
    {
        match self {
            UserStatus::Active => Ok(()),
            UserStatus::Disabled => Err(AuthError::AccountDisabled),
            UserStatus::Locked => Err(AuthError::AccountLocked),
        }
    }
}

/// The minimal record the credential repository stores for a login name.
#[derive(Debug, Clone)]
pub struct LoginCredentialsEntity {
    /// Unique identifier of the user.
    pub id: i64,
    /// The login name the record was found under.
    pub username: String,
    /// The one-way hash the password is checked against, outside the library.
    pub password_hash: String,
    /// Raw account status code as stored.
    pub status: i32,
    /// Whether this is a system/privileged account.
    pub is_system: bool,
}

/// The full profile record used to assemble a login response.
#[derive(Debug, Clone)]
pub struct UserProfile {
    /// Unique identifier of the user.
    pub id: i64,
    /// Login name.
    pub username: String,
    /// Display name, when one is set.
    pub real_name: Option<String>,
    /// Email address, when one is set.
    pub email: Option<String>,
    /// Avatar URL, when one is set.
    pub avatar_url: Option<String>,
    /// Whether this is a system/privileged account.
    pub is_system: bool,
}

} // verus!
