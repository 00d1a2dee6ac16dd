//! The session/authorization gate, run before every protected request:
//! it turns the request's credential header into an authenticated
//! identity, or into a terminal rejection.
//!
//! This middleware never mutates the cache; a cache miss for a cryptographically
//! valid token is a deliberate denial, which is how logout revokes access
//! immediately without any token revocation list.

use vstd::prelude::*;
use vstd::string::StrSliceExecFns;
use crate::AuthError;
use crate::jwt::{Claims, JwtConfig, spec_verify_outcome, verify_token};
use crate::permission::{PermissionCache, PermissionSet};

verus! {

/// The identity derived from a verified token for the span of one request.
#[derive(Debug, Clone)]
pub struct CurrentUser {
    /// The authenticated user's id, from the token's subject claim.
    pub user_id: i64,
    /// The authenticated user's name, from the token.
    pub username: String,
}

/// The token carried by a credential header value, when the value is
/// well-formed: the characters after the `"Bearer "` marker.
pub open spec fn spec_bearer_token(header: Option<Seq<char>>) -> Option<Seq<char>> {
    match header {
        None => None,
        Some(h) => if h.len() >= 7 && h.subrange(0, 7) == "Bearer "@ {
            Some(h.subrange(7, h.len() as int))
        } else {
            None
        },
    }
}

/// Extracts the bearer token from a credential header value; a missing or
/// malformed header is rejected before any verification work.
pub fn extract_bearer_token<'a>(header: Option<&'a str>) -> (r: Result<&'a str, AuthError>)
    ensures
        match r {
            Ok(token) => spec_bearer_token(
                match header {
                    Some(h) => Some(h@),
                    None => None,
                },
            ) == Some(token@),
            Err(e) => e == AuthError::Unauthorized && spec_bearer_token(
                match header {
                    Some(h) => Some(h@),
                    None => None,
                },
            ) is None,
        },
{
    proof {
        reveal_strlit("Bearer ");
    }
    let h = match header {
        None => {
            return Err(AuthError::Unauthorized);
        },
        Some(h) => h,
    };
    let len = h.unicode_len();
    if len < 7 {
        return Err(AuthError::Unauthorized);
    }
    let marker = "Bearer ";
    let mut i: usize = 0;
    while i < 7
        invariant
            header == Some(h),
            i <= 7,
            len == h@.len(),
            len >= 7,
            marker@ == "Bearer "@,
            marker@.len() == 7,
            forall|j: int| 0 <= j < i ==> h@[j] == marker@[j],
        decreases 7 - i,
    {
        if h.get_char(i) != marker.get_char(i) {
            proof {
                assert(h@.subrange(0, 7)[i as int] == h@[i as int]);
                assert(h@.subrange(0, 7) != "Bearer "@);
            }
            return Err(AuthError::Unauthorized);
        }
        i += 1;
    }
    proof {
        assert(h@.subrange(0, 7) =~= "Bearer "@);
    }
    let token = h.substring_char(7, len);
    Ok(token)
}

/// What the authorization middleware decides from the cache contents, the signing secret, the
/// header value and the clock: the identity to attach, or nothing, in
/// which case the request is rejected as unauthorized.
pub open spec fn spec_gate_outcome(
    cache: Map<i64, PermissionSet>,
    secret: Seq<char>,
    header: Option<Seq<char>>,
    now: int,
) -> Option<(int, Seq<char>)> {
    match spec_bearer_token(header) {
        None => None,
        Some(token) => match spec_verify_outcome(secret, token, now) {
            None => None,
            Some(claims) => if cache.contains_key(claims.0 as i64) {
                Some((claims.0, claims.1))
            } else {
                None
            },
        },
    }
}

/// Authorizes one protected request: extracts the bearer token, verifies
/// it against the secret and the clock reading, and requires an active
/// cached session for the token's subject. Every failure collapses into
/// `Unauthorized`; the permission cache is only read, never written.
pub fn authorize_request(
    cache: &PermissionCache,
    jwt_config: &JwtConfig,
    header: Option<&str>,
    now: i64,
) -> (r: Result<CurrentUser, AuthError>)
    ensures
        match spec_gate_outcome(
            cache@,
            jwt_config.secret@,
            match header {
                Some(h) => Some(h@),
                None => None,
            },
            now as int,
        ) {
            Some(identity) => r matches Ok(u) && u.user_id == identity.0 && u.username@
                == identity.1,
            None => r == Err::<CurrentUser, AuthError>(AuthError::Unauthorized),
        },
{
    let token = match extract_bearer_token(header) {
        Ok(t) => t,
        Err(e) => {
            return Err(e);
        },
    };
    let claims: Claims = match verify_token(jwt_config, token, now) {
        Ok(c) => c,
        Err(e) => {
            return Err(e);
        },
    };
    match cache.get(claims.user_id) {
        None => Err(AuthError::Unauthorized),
        Some(_) => Ok(CurrentUser { user_id: claims.user_id, username: claims.username }),
    }
}

/// After a user's cache entry is gone — as logout leaves it — the
/// authorization middleware rejects every request for that user, even one carrying a token that
/// still verifies and has not expired.
pub proof fn lemma_cache_miss_blocks_gate(
    cache: Map<i64, PermissionSet>,
    secret: Seq<char>,
    header: Option<Seq<char>>,
    now: int,
    user_id: i64,
)
    requires
        !cache.contains_key(user_id),
        match spec_bearer_token(header) {
            Some(token) => match spec_verify_outcome(secret, token, now) {
                Some(claims) => claims.0 == user_id as int,
                None => true,
            },
            None => true,
        },
    ensures
        spec_gate_outcome(cache, secret, header, now) is None,
{
}

} // verus!
