//! Construction of the login audit record handed to the external audit
//! sink. The library only builds the value; writing it is a best-effort,
//! fire-and-forget side effect that never blocks or fails a login.

use vstd::prelude::*;
use vstd::string::StringExecFns;
use crate::AuthError;
use crate::vo::LoginVo;

verus! {

/// One audit entry describing a login attempt and its outcome.
#[derive(Debug, Clone)]
pub struct LoginAuditRecord {
    /// The authenticated user's id, or 0 when the attempt failed.
    pub user_id: i64,
    /// The username the attempt was made under.
    pub username: String,
    /// The action tag for login attempts.
    pub action: String,
    /// `"SUCCESS"` or `"FAIL"`.
    pub outcome: String,
    /// A human-readable detail: the fixed success message, or the error's.
    pub detail: String,
    /// How long the attempt took, in milliseconds.
    pub duration_ms: i64,
    /// The client's IP address, as reported by the transport.
    pub ip_address: String,
    /// The client's user-agent header value, or whatever stands in for it.
    pub user_agent: String,
}

impl LoginAuditRecord {
    /// Builds the audit record for one login attempt: a successful login
    /// is recorded under the authenticated user's id with the fixed
    /// success message, a failed one under user id 0 with the error's
    /// message.
    pub fn from_outcome(
        username: &str,
        outcome: &Result<LoginVo, AuthError>,
        duration_ms: i64,
        ip_address: &str,
        user_agent: &str,
    ) -> (r: LoginAuditRecord)
        ensures
            r.username@ == username@,
            r.action@ == "AUTH_LOGIN"@,
            r.duration_ms == duration_ms,
            r.ip_address@ == ip_address@,
            r.user_agent@ == user_agent@,
            match outcome {
                Ok(vo) => r.user_id == vo.user_info.id && r.outcome@ == "SUCCESS"@ && r.detail@
                    == "User login successful"@,
                Err(e) => r.user_id == 0 && r.outcome@ == "FAIL"@ && r.detail@
                    == e.spec_message(),
            },
    {
        let (user_id, outcome_tag, detail): (i64, String, String) = match outcome {
            Ok(vo) => (
                vo.user_info.id,
                String::from_str("SUCCESS"),
                String::from_str("User login successful"),
            ),
            Err(e) => (0, String::from_str("FAIL"), e.message()),
        };
        LoginAuditRecord {
            user_id,
            username: String::from_str(username),
            action: String::from_str("AUTH_LOGIN"),
            outcome: outcome_tag,
            detail,
            duration_ms,
            ip_address: String::from_str(ip_address),
            user_agent: String::from_str(user_agent),
        }
    }
}

} // verus!
