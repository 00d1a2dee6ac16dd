//! Response payloads assembled for a successful login and for the
//! current-user endpoint.

use vstd::prelude::*;

verus! {

/// Comprehensive user information for an authenticated session.
#[derive(Debug, Clone)]
pub struct UserInfoVo {
    /// Unique identifier of the user.
    pub id: i64,
    /// Username of the user.
    pub username: String,
    /// Full/display name of the user, when one is set.
    pub real_name: Option<String>,
    /// Email of the user, when one is set.
    pub email: Option<String>,
    /// Avatar URL of the user, when one is set.
    pub avatar_url: Option<String>,
    /// Whether the user is a system user.
    pub is_system: bool,
    /// Permission codes the user holds; a single `"*"` for system users.
    pub permissions: Vec<String>,
}

/// Response payload for a successful user login.
#[derive(Debug)]
pub struct LoginVo {
    /// Signed session token for authenticating subsequent requests.
    pub token: String,
    /// The user's profile and permissions.
    pub user_info: UserInfoVo,
}

} // verus!
