//! Issuance and validation of signed, time-bounded session tokens.
//!
//! A token carries the subject's user id and username together with its
//! issue and expiry instants, and is signed with a single shared secret
//! using HMAC-SHA256. Verification is all-or-nothing: a bad signature,
//! malformed claims or a passed expiry all yield the same rejection.
//! The signing primitive is an outside library; what the library proves
//! is everything around it, in particular that expiry is enforced
//! against the caller's clock reading.

use vstd::prelude::*;
use crate::AuthError;

verus! {

/// Settings for token issuance and validation.
#[derive(Debug)]
pub struct JwtConfig {
    /// The shared secret used for signing and verifying tokens.
    pub secret: String,
    /// How long an issued token stays valid, in seconds.
    pub expiration: i64,
}

/// The claims carried by a session token.
#[derive(Debug, Clone)]
pub struct Claims {
    /// The subject of the token: the user id.
    pub user_id: i64,
    /// The username associated with the token.
    pub username: String,
    /// Expiration time, as unix seconds.
    pub exp: usize,
    /// Issue time, as unix seconds.
    pub iat: usize,
}

/// The claims that signature checking and deserialization recover from a
/// token string under a given secret, or `None` when the token does not
/// verify. Both trusted wrappers below describe their result through this
/// name; expiry is outside it and is checked by verified code.
pub uninterp spec fn spec_token_claims(secret: Seq<char>, token: Seq<char>) -> Option<
    (int, Seq<char>, int, int),
>;

/// Relies on jsonwebtoken::encode with an HS256 header: it serializes the
/// four claims with serde_json, signs with the secret, and the resulting
/// token decodes (under the same secret, signature checked) back to
/// exactly these claims. For this call encode cannot fail: the key from
/// `from_secret` is of the HMAC family the default HS256 header names,
/// the HMAC signer accepts a key of any length and its signing step
/// always succeeds, and serializing a serde_json value cannot fail — so
/// a token is always returned.
#[verifier::external_body]
fn jwt_encode(secret: &str, user_id: i64, username: &str, exp: usize, iat: usize) -> (r: Option<
    String,
>)
    ensures
        r is Some,
        r matches Some(t) ==> spec_token_claims(secret@, t@) == Some(
            (user_id as int, username@, exp as int, iat as int),
        ),
{
    let mut claims = serde_json::Map::new();
    claims.insert("user_id".to_string(), serde_json::Value::from(user_id));
    claims.insert("username".to_string(), serde_json::Value::from(username));
    claims.insert("exp".to_string(), serde_json::Value::from(exp as u64));
    claims.insert("iat".to_string(), serde_json::Value::from(iat as u64));
    let key = jsonwebtoken::EncodingKey::from_secret(secret.as_bytes());
    let header = jsonwebtoken::Header::default();
    jsonwebtoken::encode(&header, &serde_json::Value::Object(claims), &key).ok()
}

/// Relies on jsonwebtoken::decode restricted to HS256, with its own expiry
/// validation turned off, so the outcome is a function of the secret and
/// the token alone: it checks the signature and recovers the claims.
#[verifier::external_body]
fn jwt_decode(secret: &str, token: &str) -> (r: Option<Claims>)
    ensures
        match r {
            Some(c) => spec_token_claims(secret@, token@) == Some(
                (c.user_id as int, c.username@, c.exp as int, c.iat as int),
            ),
            None => spec_token_claims(secret@, token@) is None,
        },
{
    let mut validation = jsonwebtoken::Validation::new(jsonwebtoken::Algorithm::HS256);
    validation.validate_exp = false;
    let key = jsonwebtoken::DecodingKey::from_secret(secret.as_bytes());
    let data = jsonwebtoken::decode::<serde_json::Value>(token, &key, &validation).ok()?;
    let user_id = data.claims.get("user_id")?.as_i64()?;
    let username = data.claims.get("username")?.as_str()?.to_string();
    let exp = data.claims.get("exp")?.as_u64()?;
    let iat = data.claims.get("iat")?.as_u64()?;
    Some(Claims { user_id, username, exp: exp as usize, iat: iat as usize })
}

/// What verification at clock reading `now` yields for a token: the
/// recovered claims when the token verifies and has not expired, and
/// nothing otherwise.
pub open spec fn spec_verify_outcome(secret: Seq<char>, token: Seq<char>, now: int) -> Option<
    (int, Seq<char>, int, int),
> {
    match spec_token_claims(secret, token) {
        Some(claims) => if now < claims.2 {
            Some(claims)
        } else {
            None
        },
        None => None,
    }
}

/// Issues a token for the given user, valid from `now` for the configured
/// lifetime. Issuance always succeeds: symmetric HS256 signing has no
/// failure path. The `TokenCreationFailed` error exists for the
/// interface's error taxonomy but is never produced here.
pub fn generate_token(config: &JwtConfig, now: i64, user_id: i64, username: &str) -> (r: Result<
    String,
    AuthError,
>)
    requires
        0 <= now,
        0 < config.expiration,
        now + config.expiration <= i64::MAX,
        now + config.expiration <= usize::MAX,
    ensures
        r matches Ok(t) && spec_token_claims(config.secret@, t@) == Some(
            (user_id as int, username@, now + config.expiration, now as int),
        ),
{
    let exp = (now + config.expiration) as usize;
    let iat = now as usize;
    match jwt_encode(config.secret.as_str(), user_id, username, exp, iat) {
        Some(t) => Ok(t),
        None => Err(AuthError::TokenCreationFailed),
    }
}

/// Validates a token against the secret and the caller's clock reading:
/// returns the claims exactly when the signature checks out, the claims
/// are well-formed and `now` is before the expiry instant.
pub fn verify_token(config: &JwtConfig, token: &str, now: i64) -> (r: Result<Claims, AuthError>)
    ensures
        match spec_verify_outcome(config.secret@, token@, now as int) {
            Some(claims) => r matches Ok(c) && c.user_id == claims.0 && c.username@ == claims.1
                && c.exp == claims.2 && c.iat == claims.3,
            None => r == Err::<Claims, AuthError>(AuthError::Unauthorized),
        },
{
    match jwt_decode(config.secret.as_str(), token) {
        Some(c) => {
            let expired = now >= 0 && (c.exp as u64) <= (now as u64);
            if expired {
                Err(AuthError::Unauthorized)
            } else {
                Ok(c)
            }
        },
        None => Err(AuthError::Unauthorized),
    }
}

/// Round trip: a token carrying some claims verifies before its expiry
/// instant to exactly those claims, and fails once the expiry instant has
/// been reached. The claims hypothesis is what `generate_token` ensures
/// of every token it issues.
pub proof fn lemma_issue_verify_round_trip(
    secret: Seq<char>,
    token: Seq<char>,
    user_id: int,
    username: Seq<char>,
    exp: int,
    iat: int,
    now: int,
)
    requires
        spec_token_claims(secret, token) == Some((user_id, username, exp, iat)),
    ensures
        now < exp ==> spec_verify_outcome(secret, token, now) == Some(
            (user_id, username, exp, iat),
        ),
        now >= exp ==> spec_verify_outcome(secret, token, now) is None,
{
}

} // verus!
