//! The login orchestrator: credential verification, token issuance,
//! permission-cache population and response assembly, composed in the
//! order a login runs them.
//!
//! Durable-storage lookups (the credential row for a username, the
//! permission codes and profile for a user id) and the one-way password
//! check happen outside the library; their results come in as plain
//! values, and everything decided from them is verified here. The two
//! storage-facing side effects of a login — the audit entry and the
//! last-login timestamp — are fire-and-forget for the caller and touch
//! nothing this module owns.

use vstd::prelude::*;
use vstd::string::StringExecFns;
use crate::AuthError;
use crate::credentials::{LoginCredentialsEntity, UserProfile, UserStatus, spec_status_of_code};
use crate::jwt::{JwtConfig, generate_token, spec_token_claims};
use crate::permission::{PermissionCache, PermissionSet, PermissionSetModel};
use crate::vo::{LoginVo, UserInfoVo};

verus! {

/// Authentication service for login, logout and session-info operations.
pub struct AuthService;

/// The outcome of credential verification: the stored record when the
/// lookup found one, its status decodes to active and the password
/// matched; otherwise the error the attempt is answered with. A missing
/// user, an unrecognized status code and a wrong password all collapse
/// into `InvalidCredentials`; a recognized non-active status is named.
pub open spec fn spec_verify_login(
    credential: Option<LoginCredentialsEntity>,
    password_ok: bool,
) -> Result<LoginCredentialsEntity, AuthError> {
    match credential {
        None => Err(AuthError::InvalidCredentials),
        Some(user) => match spec_status_of_code(user.status as int) {
            None => Err(AuthError::InvalidCredentials),
            Some(UserStatus::Disabled) => Err(AuthError::AccountDisabled),
            Some(UserStatus::Locked) => Err(AuthError::AccountLocked),
            Some(UserStatus::Active) => if password_ok {
                Ok(user)
            } else {
                Err(AuthError::InvalidCredentials)
            },
        },
    }
}

/// What the cache holds for a user after a login or refresh: the wildcard
/// for a system account, the fetched codes otherwise.
pub open spec fn spec_cached_entry(is_system: bool, permissions: Seq<Seq<char>>)
    -> PermissionSetModel {
    if is_system {
        PermissionSetModel::Wildcard
    } else {
        PermissionSetModel::Codes(permissions)
    }
}

fn clone_strings(v: &Vec<String>) -> (r: Vec<String>)
    ensures
        r@ == v@,
{
    let mut r: Vec<String> = Vec::new();
    let mut i: usize = 0;
    while i < v.len()
        invariant
            i <= v.len(),
            r@ =~= v@.subrange(0, i as int),
        decreases v.len() - i,
    {
        r.push(v[i].clone());
        proof {
            assert(r@ =~= v@.subrange(0, i + 1 as int));
        }
        i += 1;
    }
    proof {
        assert(r@ =~= v@);
    }
    r
}

impl AuthService {
    /// Decides a login attempt from the repository's lookup result and the
    /// outcome of the one-way password check, in the order the attempt is
    /// processed: existence, then account status, then password.
    pub fn verify_login(credential: Option<LoginCredentialsEntity>, password_ok: bool) -> (r:
        Result<LoginCredentialsEntity, AuthError>)
        ensures
            r == spec_verify_login(credential, password_ok),
    {
        let user = match credential {
            None => {
                return Err(AuthError::InvalidCredentials);
            },
            Some(u) => u,
        };
        let status = match UserStatus::from_code(user.status) {
            None => {
                return Err(AuthError::InvalidCredentials);
            },
            Some(s) => s,
        };
        match status.check_status() {
            Ok(_) => {},
            Err(e) => {
                return Err(e);
            },
        }
        if !password_ok {
            return Err(AuthError::InvalidCredentials);
        }
        Ok(user)
    }

    /// Stores the user's permission set in the cache: always the wildcard
    /// for a system account, regardless of any fetched codes.
    pub fn cache_user_permissions(
        cache: &mut PermissionCache,
        user_id: i64,
        is_system: bool,
        permissions: Vec<String>,
    )
        ensures
            final(cache)@ == old(cache)@.insert(
                user_id,
                if is_system {
                    PermissionSet::Wildcard
                } else {
                    PermissionSet::Codes(permissions)
                },
            ),
    {
        if is_system {
            cache.put(user_id, PermissionSet::Wildcard);
        } else {
            cache.put(user_id, PermissionSet::Codes(permissions));
        }
    }

    /// Re-puts the user's permission set, leaving every other entry alone;
    /// used by the response-assembly path to keep the cache warm.
    pub fn refresh_user_permissions_cache(
        cache: &mut PermissionCache,
        user_id: i64,
        is_system: bool,
        permissions: &Vec<String>,
    )
        ensures
            final(cache)@.dom() =~= old(cache)@.dom().insert(user_id),
            final(cache)@[user_id]@ == spec_cached_entry(is_system, permissions.deep_view()),
            forall|k: i64|
                k != user_id && old(cache)@.contains_key(k) ==> final(cache)@.contains_key(k)
                    && final(cache)@[k] == old(cache)@[k],
            forall|k: i64|
                k != user_id && !old(cache)@.contains_key(k) ==> !final(cache)@.contains_key(k),
    {
        if is_system {
            cache.put(user_id, PermissionSet::Wildcard);
        } else {
            cache.put(user_id, PermissionSet::Codes(clone_strings(permissions)));
        }
    }

    /// Assembles the user-info payload from the profile record and fetched
    /// permission codes, refreshing the permission cache on the way — the
    /// same idempotent re-put a login's final step performs. A missing
    /// profile for a just-verified user is an integrity error.
    pub fn get_login_info(
        cache: &mut PermissionCache,
        user_id: i64,
        profile: Option<UserProfile>,
        permissions: Vec<String>,
    ) -> (r: Result<UserInfoVo, AuthError>)
        requires
            profile matches Some(p) ==> p.id == user_id,
        ensures
            match profile {
                None => r == Err::<UserInfoVo, AuthError>(AuthError::NotFound) && *final(cache)
                    == *old(cache),
                Some(u) => {
                    &&& r matches Ok(info)
                    &&& info.id == u.id
                    &&& info.username == u.username
                    &&& info.real_name == u.real_name
                    &&& info.email == u.email
                    &&& info.avatar_url == u.avatar_url
                    &&& info.is_system == u.is_system
                    &&& (u.is_system ==> info.permissions.deep_view() =~= seq!["*"@])
                    &&& (!u.is_system ==> info.permissions == permissions)
                    &&& final(cache)@.dom() =~= old(cache)@.dom().insert(u.id)
                    &&& final(cache)@[u.id]@ == spec_cached_entry(
                        u.is_system,
                        permissions.deep_view(),
                    )
                    &&& (forall|k: i64|
                        k != u.id && old(cache)@.contains_key(k) ==> final(cache)@.contains_key(k) && final(cache)@[k] == old(cache)@[k])
                    &&& (forall|k: i64|
                        k != u.id && !old(cache)@.contains_key(k) ==> !final(cache)@.contains_key(k))
                },
            },
    {
        let user = match profile {
            None => {
                return Err(AuthError::NotFound);
            },
            Some(u) => u,
        };
        let perms: Vec<String> = if user.is_system {
            let mut wildcard: Vec<String> = Vec::new();
            wildcard.push(String::from_str("*"));
            wildcard
        } else {
            permissions
        };
        proof {
            if user.is_system {
                assert(perms.deep_view() =~= seq!["*"@]);
            }
        }
        Self::refresh_user_permissions_cache(cache, user.id, user.is_system, &perms);
        Ok(
            UserInfoVo {
                id: user.id,
                username: user.username,
                real_name: user.real_name,
                email: user.email,
                avatar_url: user.avatar_url,
                is_system: user.is_system,
                permissions: perms,
            },
        )
    }

    /// The end-to-end login flow: verify the credentials, issue a token,
    /// populate the permission cache, and assemble the response. Accepted
    /// credentials with an existing profile always log in — token signing
    /// has no failure path. The first
    /// failing step aborts the rest; a verification failure leaves the
    /// cache untouched, so a failed attempt never creates an entry. On
    /// success the token's claims name the verified user and the cache
    /// holds that user's entry — the wildcard for a system account, the
    /// fetched codes otherwise — with every other entry unchanged.
    pub fn login(
        cache: &mut PermissionCache,
        jwt_config: &JwtConfig,
        now: i64,
        credential: Option<LoginCredentialsEntity>,
        password_ok: bool,
        permissions: Vec<String>,
        profile: Option<UserProfile>,
    ) -> (r: Result<LoginVo, AuthError>)
        requires
            0 <= now,
            0 < jwt_config.expiration,
            now + jwt_config.expiration <= i64::MAX,
            now + jwt_config.expiration <= usize::MAX,
            match (credential, profile) {
                (Some(c), Some(p)) => p.id == c.id && p.is_system == c.is_system,
                _ => true,
            },
        ensures
            ({
                let verdict = spec_verify_login(credential, password_ok);
                &&& (verdict matches Err(e) ==> r == Err::<LoginVo, AuthError>(e) && *final(cache)
                    == *old(cache))
                &&& (verdict matches Ok(user) ==> {
                    &&& (r is Ok <==> profile is Some)
                    &&& (r matches Err(e) ==> e == AuthError::NotFound && profile is None && final(cache)@.dom() =~= old(cache)@.dom().insert(user.id) && final(cache)@[user.id]@
                        == spec_cached_entry(user.is_system, permissions.deep_view()))
                    &&& (r matches Ok(vo) ==> {
                        &&& spec_token_claims(jwt_config.secret@, vo.token@) == Some(
                            (
                                user.id as int,
                                user.username@,
                                now + jwt_config.expiration,
                                now as int,
                            ),
                        )
                        &&& vo.user_info.id == user.id
                        &&& vo.user_info.is_system == user.is_system
                        &&& (profile matches Some(p) ==> vo.user_info.username == p.username
                            && vo.user_info.real_name == p.real_name && vo.user_info.email
                            == p.email && vo.user_info.avatar_url == p.avatar_url)
                        &&& (user.is_system ==> vo.user_info.permissions.deep_view() =~= seq![
                            "*"@,
                        ])
                        &&& (!user.is_system ==> vo.user_info.permissions == permissions)
                        &&& final(cache)@.contains_key(user.id)
                        &&& final(cache)@[user.id]@ == spec_cached_entry(
                            user.is_system,
                            permissions.deep_view(),
                        )
                        &&& final(cache)@.dom() =~= old(cache)@.dom().insert(user.id)
                        &&& (forall|k: i64|
                            k != user.id && old(cache)@.contains_key(k) ==> final(cache)@.contains_key(k) && final(cache)@[k] == old(cache)@[k])
                        &&& (forall|k: i64|
                            k != user.id && !old(cache)@.contains_key(k) ==> !final(cache)@.contains_key(k))
                    })
                })
            }),
    {
        let user = match Self::verify_login(credential, password_ok) {
            Ok(u) => u,
            Err(e) => {
                return Err(e);
            },
        };
        let token = match generate_token(jwt_config, now, user.id, user.username.as_str()) {
            Ok(t) => t,
            Err(e) => {
                return Err(e);
            },
        };
        Self::cache_user_permissions(cache, user.id, user.is_system, clone_strings(&permissions));
        let user_info = match Self::get_login_info(cache, user.id, profile, permissions) {
            Ok(info) => info,
            Err(e) => {
                return Err(e);
            },
        };
        Ok(LoginVo { token, user_info })
    }

    /// Logout: evicts the caller's entry from the permission cache, so the
    /// authorization gate denies the next request even if the token is
    /// still cryptographically valid. Always succeeds, and evicting an
    /// absent entry changes nothing, so repeating it is harmless.
    pub fn logout(cache: &mut PermissionCache, user_id: i64)
        ensures
            final(cache)@ == old(cache)@.remove(user_id),
            !final(cache)@.contains_key(user_id),
    {
        cache.evict(user_id);
    }
}

/// A wrong password against an existing active account is answered with
/// `InvalidCredentials`, the same error an unknown username gets.
pub proof fn lemma_login_rejects_bad_password(credential: LoginCredentialsEntity)
    requires
        spec_status_of_code(credential.status as int) == Some(UserStatus::Active),
    ensures
        spec_verify_login(Some(credential), false) == Err::<LoginCredentialsEntity, AuthError>(
            AuthError::InvalidCredentials,
        ),
{
}

/// A disabled or locked account is reported as such even when the
/// password is correct, never as `InvalidCredentials`.
pub proof fn lemma_login_surfaces_account_status(
    credential: LoginCredentialsEntity,
    password_ok: bool,
)
    ensures
        spec_status_of_code(credential.status as int) == Some(UserStatus::Disabled)
            ==> spec_verify_login(Some(credential), password_ok) == Err::<
            LoginCredentialsEntity,
            AuthError,
        >(AuthError::AccountDisabled),
        spec_status_of_code(credential.status as int) == Some(UserStatus::Locked)
            ==> spec_verify_login(Some(credential), password_ok) == Err::<
            LoginCredentialsEntity,
            AuthError,
        >(AuthError::AccountLocked),
{
}

/// Logins for distinct users do not interfere: when two logins run one
/// after the other — each relating the cache before and after as
/// `login`'s postcondition does, the later one starting from the earlier
/// one's result — the cache ends with exactly each user's own entry, and
/// every other user's entry, present or absent, is as it began. The
/// per-step frame is the same at every length, so a whole burst of
/// distinct-user logins composes the same way, step by step.
pub proof fn lemma_sequential_logins_isolated(
    before: Map<i64, PermissionSet>,
    mid: Map<i64, PermissionSet>,
    after: Map<i64, PermissionSet>,
    first_id: i64,
    first_entry: PermissionSetModel,
    second_id: i64,
    second_entry: PermissionSetModel,
)
    requires
        first_id != second_id,
        mid.dom() =~= before.dom().insert(first_id),
        mid[first_id]@ == first_entry,
        forall|k: i64|
            k != first_id && before.contains_key(k) ==> mid.contains_key(k) && mid[k] == before[k],
        forall|k: i64| k != first_id && !before.contains_key(k) ==> !mid.contains_key(k),
        after.dom() =~= mid.dom().insert(second_id),
        after[second_id]@ == second_entry,
        forall|k: i64|
            k != second_id && mid.contains_key(k) ==> after.contains_key(k) && after[k] == mid[k],
        forall|k: i64| k != second_id && !mid.contains_key(k) ==> !after.contains_key(k),
    ensures
        after.contains_key(first_id) && after[first_id]@ == first_entry,
        after.contains_key(second_id) && after[second_id]@ == second_entry,
        forall|k: i64|
            k != first_id && k != second_id && before.contains_key(k) ==> after.contains_key(k)
                && after[k] == before[k],
        forall|k: i64|
            k != first_id && k != second_id && !before.contains_key(k) ==> !after.contains_key(k),
{
    assert(mid.contains_key(first_id));
}

/// A correct password against an active account is accepted, yielding the
/// stored record unchanged.
pub proof fn lemma_login_accepts_valid_credentials(credential: LoginCredentialsEntity)
    requires
        spec_status_of_code(credential.status as int) == Some(UserStatus::Active),
    ensures
        spec_verify_login(Some(credential), true) == Ok::<LoginCredentialsEntity, AuthError>(
            credential,
        ),
{
}

} // verus!
