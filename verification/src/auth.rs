//! Token claims and the password / token helpers.
//!
//! The claims of a session token are plain data with a fixed lifetime
//! rule; hashing, verifying and the token encoding itself are done by
//! outside crates behind trusted wrappers.  The signing secret is an
//! explicit argument everywhere: the library compiles no key in, the
//! caller owns and injects it.

use vstd::prelude::*;

verus! {

use crate::error::{AppError, AppResult};
use crate::sys::current_timestamp;

/// How long an issued token stays valid, in seconds: 24 hours.
pub const TOKEN_LIFETIME_SECONDS: i64 = 86400;

/// The claims carried by a session token: the user id, the user's names,
/// and the issue and expiry times as Unix seconds.
#[derive(Clone, Debug)]
pub struct Claims {
    pub sub: String,
    pub username: String,
    pub email: String,
    pub exp: i64,
    pub iat: i64,
}

/// The mathematical shadow of `Claims`.
pub ghost struct ClaimsView {
    pub sub: Seq<char>,
    pub username: Seq<char>,
    pub email: Seq<char>,
    pub exp: int,
    pub iat: int,
}

impl View for Claims {
    type V = ClaimsView;

    open spec fn view(&self) -> ClaimsView {
        ClaimsView {
            sub: self.sub@,
            username: self.username@,
            email: self.email@,
            exp: self.exp as int,
            iat: self.iat as int,
        }
    }
}

/// The token that encoding these claims with this secret yields.  Encoding
/// is HMAC signing over a fixed serialization, a function of the claims
/// and the secret alone; its value is known only through the trusted
/// encoder below.
pub uninterp spec fn jwt_token_of(claims: ClaimsView, secret: Seq<char>) -> Seq<char>;

/// The claims carried in a token's payload, a function of the token text
/// alone; known only through the trusted encoder and decoder below.
pub uninterp spec fn jwt_claims_of(token: Seq<char>) -> ClaimsView;

/// What bcrypt's verification answers for this password against this
/// hash: `Some(b)` when it answers `b`, `None` when it rejects the hash as
/// malformed.  A function of the two texts alone; known only through the
/// trusted hashing and verification wrappers below.
pub uninterp spec fn bcrypt_check(password: Seq<char>, hash: Seq<char>) -> Option<bool>;

/// Relies on jsonwebtoken's `encode` with its default header (HS256) and a
/// secret-based key: on success the returned token is the encoding of
/// exactly these claims with this secret, and decoding the token's payload
/// gives these claims back.
#[verifier::external_body]
fn jwt_encode_raw(claims: &Claims, secret: &str) -> (r: Result<
    String,
    jsonwebtoken::errors::Error,
>)
    ensures
        r matches Ok(t) ==> t@ == jwt_token_of(claims@, secret@) && jwt_claims_of(t@)
            == claims@,
{
    let mut payload = serde_json::Map::new();
    payload.insert("sub".to_string(), serde_json::Value::String(claims.sub.clone()));
    payload.insert("username".to_string(), serde_json::Value::String(claims.username.clone()));
    payload.insert("email".to_string(), serde_json::Value::String(claims.email.clone()));
    payload.insert("exp".to_string(), serde_json::Value::from(claims.exp));
    payload.insert("iat".to_string(), serde_json::Value::from(claims.iat));
    let key = jsonwebtoken::EncodingKey::from_secret(secret.as_bytes());
    jsonwebtoken::encode(&jsonwebtoken::Header::default(), &serde_json::Value::Object(payload), &key)
}

/// Relies on jsonwebtoken's `decode` with its default validation (HS256,
/// expiry checked against the clock): on success the returned claims are
/// the ones carried in the token's payload.  Whether validation succeeds
/// also depends on the clock, so nothing is promised about when `Ok`
/// comes.
#[verifier::external_body]
fn jwt_decode_raw(token: &str, secret: &str) -> (r: Result<
    Claims,
    jsonwebtoken::errors::Error,
>)
    ensures
        r matches Ok(c) ==> c@ == jwt_claims_of(token@),
{
    let key = jsonwebtoken::DecodingKey::from_secret(secret.as_bytes());
    let validation = jsonwebtoken::Validation::default();
    let data = jsonwebtoken::decode::<serde_json::Value>(token, &key, &validation)?;
    let v = data.claims;
    Ok(Claims {
        sub: v.get("sub").and_then(|x| x.as_str()).unwrap_or("").to_string(),
        username: v.get("username").and_then(|x| x.as_str()).unwrap_or("").to_string(),
        email: v.get("email").and_then(|x| x.as_str()).unwrap_or("").to_string(),
        exp: v.get("exp").and_then(|x| x.as_i64()).unwrap_or(0),
        iat: v.get("iat").and_then(|x| x.as_i64()).unwrap_or(0),
    })
}

/// Relies on bcrypt's `hash` with the crate's default cost: on success the
/// result is a 60-character hash text that bcrypt's own verification
/// accepts for this password.  The salt is random, so nothing more is
/// known of the text.
#[verifier::external_body]
fn bcrypt_hash_raw(password: &str) -> (r: Result<String, bcrypt::BcryptError>)
    ensures
        r matches Ok(h) ==> h@.len() == 60 && bcrypt_check(password@, h@) == Some(true),
{
    bcrypt::hash(password, bcrypt::DEFAULT_COST)
}

/// Relies on bcrypt's `verify`: a deterministic check of the password
/// against the hash text, answering through `bcrypt_check`; it errors
/// exactly when the hash text is one it cannot parse.
#[verifier::external_body]
fn bcrypt_verify_raw(password: &str, hash: &str) -> (r: Result<bool, bcrypt::BcryptError>)
    ensures
        r matches Ok(b) ==> bcrypt_check(password@, hash@) == Some(b),
        r matches Err(_) ==> bcrypt_check(password@, hash@) is None,
{
    bcrypt::verify(password, hash)
}

impl Claims {
    /// Fresh claims for a user: issued now, expiring exactly one token
    /// lifetime later.
    pub fn new(user_id: String, username: String, email: String) -> (c: Claims)
        ensures
            c.sub == user_id,
            c.username == username,
            c.email == email,
            c.exp == c.iat + TOKEN_LIFETIME_SECONDS,
    {
        let now: i64 = current_timestamp();
        Claims { sub: user_id, username, email, exp: now + TOKEN_LIFETIME_SECONDS, iat: now }
    }
}

/// Hashes a password for storage.  On success the returned text is a
/// 60-character bcrypt hash that `verify_password` accepts for this
/// password; on failure the bcrypt error is passed through.
pub fn hash_password(password: &str) -> (r: AppResult<String>)
    ensures
        r matches Ok(h) ==> h@.len() == 60 && bcrypt_check(password@, h@) == Some(true),
        r matches Err(e) ==> e matches AppError::Bcrypt(_),
{
    match bcrypt_hash_raw(password) {
        Ok(h) => Ok(h),
        Err(e) => Err(AppError::Bcrypt(e)),
    }
}

/// Checks a password against a stored hash.  The answer is exactly
/// bcrypt's check of the pair; an error comes exactly when the hash text
/// is malformed.
pub fn verify_password(password: &str, hash: &str) -> (r: AppResult<bool>)
    ensures
        r matches Ok(b) ==> bcrypt_check(password@, hash@) == Some(b),
        r matches Err(e) ==> e matches AppError::Bcrypt(_) && bcrypt_check(password@, hash@)
            is None,
{
    match bcrypt_verify_raw(password, hash) {
        Ok(b) => Ok(b),
        Err(e) => Err(AppError::Bcrypt(e)),
    }
}

/// Encodes claims into a signed token with the injected secret.  On
/// success the token is exactly the encoding of these claims, and its
/// payload decodes back to them.
pub fn create_jwt(claims: &Claims, secret: &str) -> (r: AppResult<String>)
    ensures
        r matches Ok(t) ==> t@ == jwt_token_of(claims@, secret@) && jwt_claims_of(t@)
            == claims@,
        r matches Err(e) ==> e matches AppError::Jwt(_),
{
    match jwt_encode_raw(claims, secret) {
        Ok(t) => Ok(t),
        Err(e) => Err(AppError::Jwt(e)),
    }
}

/// Validates a token with the injected secret.  On success the returned
/// claims are exactly the token's payload; failure carries the decoder's
/// error (bad signature, expired, malformed).
pub fn validate_jwt(token: &str, secret: &str) -> (r: AppResult<Claims>)
    ensures
        r matches Ok(c) ==> c@ == jwt_claims_of(token@),
        r matches Err(e) ==> e matches AppError::Jwt(_),
{
    match jwt_decode_raw(token, secret) {
        Ok(c) => Ok(c),
        Err(e) => Err(AppError::Jwt(e)),
    }
}

} // verus!
