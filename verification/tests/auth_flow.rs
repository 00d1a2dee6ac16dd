use rustzen_auth::AuthError;
use rustzen_auth::credentials::{LoginCredentialsEntity, UserProfile, UserStatus};
use rustzen_auth::gate::{authorize_request, extract_bearer_token};
use rustzen_auth::jwt::{JwtConfig, generate_token, verify_token};
use rustzen_auth::permission::{PermissionCache, PermissionSet};
use rustzen_auth::service::AuthService;

fn jwt_config() -> JwtConfig {
    JwtConfig { secret: String::from("test-secret"), expiration: 3600 }
}

fn credential(id: i64, username: &str, status: i32, is_system: bool) -> LoginCredentialsEntity {
    LoginCredentialsEntity {
        id,
        username: String::from(username),
        password_hash: String::from("$hash$"),
        status,
        is_system,
    }
}

fn profile(id: i64, username: &str, is_system: bool) -> UserProfile {
    UserProfile {
        id,
        username: String::from(username),
        real_name: Some(String::from("Test User")),
        email: Some(String::from("test@example.com")),
        avatar_url: None,
        is_system,
    }
}

fn codes(list: &[&str]) -> Vec<String> {
    list.iter().map(|s| String::from(*s)).collect()
}

#[test]
fn login_success_round_trip() {
    let mut cache = PermissionCache::new();
    let cfg = jwt_config();
    let now = 1_700_000_000;
    let result = AuthService::login(
        &mut cache,
        &cfg,
        now,
        Some(credential(42, "alice", 1, false)),
        true,
        codes(&["user.read", "user.write"]),
        Some(profile(42, "alice", false)),
    );
    let vo = result.expect("valid credentials must log in");
    assert_eq!(vo.user_info.id, 42);
    assert_eq!(vo.user_info.username, "alice");
    assert_eq!(vo.user_info.permissions, codes(&["user.read", "user.write"]));
    let claims = verify_token(&cfg, vo.token.as_str(), now + 10).expect("fresh token verifies");
    assert_eq!(claims.user_id, 42);
    assert_eq!(claims.username, "alice");
    assert_eq!(claims.iat, 1_700_000_000);
    assert_eq!(claims.exp, 1_700_003_600);
    assert!(cache.get(42).is_some());
    assert!(cache.has(42, "user.read"));
    assert!(!cache.has(42, "admin.write"));
}

#[test]
fn login_wrong_password_is_invalid_credentials() {
    let mut cache = PermissionCache::new();
    let result = AuthService::login(
        &mut cache,
        &jwt_config(),
        1_700_000_000,
        Some(credential(42, "alice", 1, false)),
        false,
        codes(&["user.read"]),
        Some(profile(42, "alice", false)),
    );
    assert_eq!(result.unwrap_err(), AuthError::InvalidCredentials);
    assert!(cache.get(42).is_none());
}

#[test]
fn login_unknown_user_is_invalid_credentials() {
    let mut cache = PermissionCache::new();
    let result = AuthService::login(
        &mut cache,
        &jwt_config(),
        1_700_000_000,
        None,
        false,
        Vec::new(),
        None,
    );
    assert_eq!(result.unwrap_err(), AuthError::InvalidCredentials);
}

#[test]
fn login_disabled_account_is_status_error() {
    let mut cache = PermissionCache::new();
    let result = AuthService::login(
        &mut cache,
        &jwt_config(),
        1_700_000_000,
        Some(credential(7, "bob", 2, false)),
        true,
        codes(&["a"]),
        Some(profile(7, "bob", false)),
    );
    assert_eq!(result.unwrap_err(), AuthError::AccountDisabled);
    assert!(cache.get(7).is_none());
}

#[test]
fn login_locked_account_is_status_error() {
    let mut cache = PermissionCache::new();
    let result = AuthService::login(
        &mut cache,
        &jwt_config(),
        1_700_000_000,
        Some(credential(7, "bob", 3, false)),
        true,
        codes(&["a"]),
        Some(profile(7, "bob", false)),
    );
    assert_eq!(result.unwrap_err(), AuthError::AccountLocked);
}

#[test]
fn login_missing_profile_is_not_found() {
    let mut cache = PermissionCache::new();
    let result = AuthService::login(
        &mut cache,
        &jwt_config(),
        1_700_000_000,
        Some(credential(9, "carol", 1, false)),
        true,
        codes(&["a"]),
        None,
    );
    assert_eq!(result.unwrap_err(), AuthError::NotFound);
}

#[test]
fn verify_login_checks_status_before_password() {
    let r = AuthService::verify_login(Some(credential(1, "dave", 2, false)), false);
    assert_eq!(r.unwrap_err(), AuthError::AccountDisabled);
}

#[test]
fn verify_login_unrecognized_status_is_invalid_credentials() {
    let r = AuthService::verify_login(Some(credential(1, "dave", 99, false)), true);
    assert_eq!(r.unwrap_err(), AuthError::InvalidCredentials);
}

#[test]
fn user_status_codes_decode() {
    assert_eq!(UserStatus::from_code(1), Some(UserStatus::Active));
    assert_eq!(UserStatus::from_code(2), Some(UserStatus::Disabled));
    assert_eq!(UserStatus::from_code(3), Some(UserStatus::Locked));
    assert_eq!(UserStatus::from_code(0), None);
}

#[test]
fn token_round_trip_and_expiry() {
    let cfg = jwt_config();
    let now = 1_700_000_000;
    let token = generate_token(&cfg, now, 5, "eve").expect("signing succeeds");
    let claims = verify_token(&cfg, token.as_str(), now).expect("valid before expiry");
    assert_eq!(claims.user_id, 5);
    assert_eq!(claims.username, "eve");
    let at_expiry = verify_token(&cfg, token.as_str(), now + 3600);
    assert_eq!(at_expiry.unwrap_err(), AuthError::Unauthorized);
    let past_expiry = verify_token(&cfg, token.as_str(), now + 7200);
    assert_eq!(past_expiry.unwrap_err(), AuthError::Unauthorized);
}

#[test]
fn token_rejects_wrong_secret_and_garbage() {
    let cfg = jwt_config();
    let other = JwtConfig { secret: String::from("other-secret"), expiration: 3600 };
    let now = 1_700_000_000;
    let token = generate_token(&cfg, now, 5, "eve").expect("signing succeeds");
    assert_eq!(verify_token(&other, token.as_str(), now).unwrap_err(), AuthError::Unauthorized);
    assert_eq!(verify_token(&cfg, "not-a-token", now).unwrap_err(), AuthError::Unauthorized);
    assert_eq!(verify_token(&cfg, "", now).unwrap_err(), AuthError::Unauthorized);
}

#[test]
fn token_payload_matches_jsonwebtoken_decode() {
    // Cross-check the trusted signing wrapper against the underlying
    // library's own decoder: the claims must travel unchanged.
    let cfg = jwt_config();
    let token = generate_token(&cfg, 1_700_000_000, -3, "frank").expect("signing succeeds");
    let mut validation = jsonwebtoken::Validation::new(jsonwebtoken::Algorithm::HS256);
    validation.validate_exp = false;
    let key = jsonwebtoken::DecodingKey::from_secret(b"test-secret");
    let data = jsonwebtoken::decode::<serde_json::Value>(&token, &key, &validation)
        .expect("token is a well-formed signed JWT");
    assert_eq!(data.claims.get("user_id").and_then(|v| v.as_i64()), Some(-3));
    assert_eq!(data.claims.get("username").and_then(|v| v.as_str()), Some("frank"));
    assert_eq!(data.claims.get("iat").and_then(|v| v.as_u64()), Some(1_700_000_000));
    assert_eq!(data.claims.get("exp").and_then(|v| v.as_u64()), Some(1_700_003_600));
}

#[test]
fn logout_is_idempotent() {
    let mut cache = PermissionCache::new();
    AuthService::cache_user_permissions(&mut cache, 42, false, codes(&["a"]));
    assert!(cache.get(42).is_some());
    AuthService::logout(&mut cache, 42);
    assert!(cache.get(42).is_none());
    AuthService::logout(&mut cache, 42);
    assert!(cache.get(42).is_none());
}

#[test]
fn privileged_login_grants_everything() {
    let mut cache = PermissionCache::new();
    let result = AuthService::login(
        &mut cache,
        &jwt_config(),
        1_700_000_000,
        Some(credential(1, "root", 1, true)),
        true,
        Vec::new(),
        Some(profile(1, "root", true)),
    );
    let vo = result.expect("privileged login succeeds");
    assert_eq!(vo.user_info.permissions, codes(&["*"]));
    assert!(cache.has(1, "any.permission"));
    assert!(cache.has(1, "something.else.entirely"));
}

#[test]
fn end_to_end_gate_scenario() {
    let mut cache = PermissionCache::new();
    let cfg = jwt_config();
    let now = 1_700_000_000;
    let vo = AuthService::login(
        &mut cache,
        &cfg,
        now,
        Some(credential(8, "grace", 1, false)),
        true,
        codes(&["a", "b"]),
        Some(profile(8, "grace", false)),
    )
    .expect("login succeeds");
    assert!(cache.has(8, "a"));
    assert!(cache.has(8, "b"));
    assert!(!cache.has(8, "c"));

    let header = format!("Bearer {}", vo.token);
    let user = authorize_request(&cache, &cfg, Some(header.as_str()), now + 5)
        .expect("valid token with cached session passes the authorization check");
    assert_eq!(user.user_id, 8);
    assert_eq!(user.username, "grace");

    AuthService::logout(&mut cache, 8);
    let after_logout = authorize_request(&cache, &cfg, Some(header.as_str()), now + 10);
    assert_eq!(after_logout.unwrap_err(), AuthError::Unauthorized);
}

#[test]
fn gate_rejects_missing_or_malformed_header() {
    let cache = PermissionCache::new();
    let cfg = jwt_config();
    assert_eq!(authorize_request(&cache, &cfg, None, 0).unwrap_err(), AuthError::Unauthorized);
    assert_eq!(
        authorize_request(&cache, &cfg, Some("Basic abc"), 0).unwrap_err(),
        AuthError::Unauthorized
    );
    assert_eq!(authorize_request(&cache, &cfg, Some("Bearer"), 0).unwrap_err(), AuthError::Unauthorized);
}

#[test]
fn bearer_token_extraction() {
    assert_eq!(extract_bearer_token(Some("Bearer abc.def.ghi")), Ok("abc.def.ghi"));
    assert_eq!(extract_bearer_token(Some("Bearer ")), Ok(""));
    assert_eq!(extract_bearer_token(Some("bearer abc")).unwrap_err(), AuthError::Unauthorized);
    assert_eq!(extract_bearer_token(Some("abc")).unwrap_err(), AuthError::Unauthorized);
    assert_eq!(extract_bearer_token(None).unwrap_err(), AuthError::Unauthorized);
}

#[test]
fn concurrent_style_logins_stay_isolated() {
    let mut cache = PermissionCache::new();
    let cfg = jwt_config();
    let now = 1_700_000_000;
    for id in 1..=10_i64 {
        let name = format!("user{}", id);
        let perm = format!("perm.{}", id);
        let vo = AuthService::login(
            &mut cache,
            &cfg,
            now,
            Some(credential(id, name.as_str(), 1, false)),
            true,
            codes(&[perm.as_str()]),
            Some(UserProfile {
                id,
                username: name.clone(),
                real_name: None,
                email: None,
                avatar_url: None,
                is_system: false,
            }),
        )
        .expect("every distinct login succeeds");
        assert_eq!(vo.user_info.id, id);
    }
    for id in 1..=10_i64 {
        let own = format!("perm.{}", id);
        let other = format!("perm.{}", (id % 10) + 1);
        assert!(cache.has(id, own.as_str()));
        assert!(!cache.has(id, other.as_str()));
    }
}

#[test]
fn empty_permission_set_is_cached_but_denies() {
    let mut cache = PermissionCache::new();
    AuthService::cache_user_permissions(&mut cache, 3, false, Vec::new());
    assert!(cache.get(3).is_some());
    assert!(!cache.has(3, "anything"));
}

#[test]
fn refresh_overwrites_previous_entry() {
    let mut cache = PermissionCache::new();
    AuthService::cache_user_permissions(&mut cache, 3, false, codes(&["old"]));
    AuthService::refresh_user_permissions_cache(&mut cache, 3, false, &codes(&["new"]));
    assert!(!cache.has(3, "old"));
    assert!(cache.has(3, "new"));
    AuthService::refresh_user_permissions_cache(&mut cache, 3, true, &Vec::new());
    assert!(cache.has(3, "old"));
}

#[test]
fn wildcard_is_variant_not_literal() {
    let mut cache = PermissionCache::new();
    // A real permission code spelled "*" grants only itself.
    cache.put(4, PermissionSet::Codes(vec![String::from("*")]));
    assert!(cache.has(4, "*"));
    assert!(!cache.has(4, "user.read"));
    // The wildcard variant grants everything.
    cache.put(4, PermissionSet::Wildcard);
    assert!(cache.has(4, "user.read"));
}

#[test]
fn error_messages_are_fixed() {
    assert_eq!(AuthError::InvalidCredentials.message(), "Invalid username or password");
    assert_eq!(AuthError::AccountDisabled.message(), "Account is disabled");
    assert_eq!(AuthError::AccountLocked.message(), "Account is locked");
    assert_eq!(AuthError::TokenCreationFailed.message(), "Failed to create token");
    assert_eq!(AuthError::Unauthorized.message(), "Unauthorized");
    assert_eq!(AuthError::NotFound.message(), "User not found");
}
