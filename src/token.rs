//! Signed, time-bounded credentials (JSON Web Tokens) for a user.

use vstd::prelude::*;

use crate::clock;

verus! {

#[verifier::external_type_specification]
#[verifier::external_body]
pub struct ExJwtError(jsonwebtoken::errors::Error);

/// How long a token stays valid: 24 hours, in seconds.
pub const TOKEN_LIFETIME_SECS: u64 = 86400;

/// The claim set that a token carries.
#[derive(Debug, Clone, PartialEq)]
pub struct Claims {
    /// Expiry, in seconds since the Unix epoch.
    pub exp: u64,
    /// Time of issue, in seconds since the Unix epoch.
    pub iat: u64,
    pub username: String,
}

/// Signing the token failed; with an HMAC secret this does not happen.
#[derive(Debug, Clone, Copy, PartialEq, Eq, Structural)]
pub enum TokenError {
    Signing,
}

/// The token that HS256 gives for the claim set `{"exp", "iat", "username"}`
/// under the default header and the secret.
pub uninterp spec fn hs256_jwt(exp: u64, iat: u64, username: Seq<char>, secret: Seq<char>) -> Seq<char>;

/// Relies on jsonwebtoken::encode with the default header (HS256) and
/// EncodingKey::from_secret: the token for these claims and this secret,
/// which HMAC makes a function of them alone. With an HMAC key and the HS256
/// header, serialising a JSON map and HMAC signing have no error path, so the
/// call succeeds.
#[verifier::external_body]
fn sign_hs256(exp: u64, iat: u64, username: &str, secret: &str) -> (r: Result<String, jsonwebtoken::errors::Error>)
    ensures
        r is Ok,
        r matches Ok(t) ==> t@ == hs256_jwt(exp, iat, username@, secret@),
{
    let mut claims = serde_json::Map::new();
    claims.insert("exp".to_string(), serde_json::Value::from(exp));
    claims.insert("iat".to_string(), serde_json::Value::from(iat));
    claims.insert("username".to_string(), serde_json::Value::from(username));
    let key = jsonwebtoken::EncodingKey::from_secret(secret.as_bytes());
    jsonwebtoken::encode(&jsonwebtoken::Header::default(), &serde_json::Value::Object(claims), &key)
}

impl Claims {
    /// The claims of a token for `username` issued at second `iat`.
    pub open spec fn issued(username: Seq<char>, iat: u64, c: Claims) -> bool {
        &&& c.iat == iat
        &&& c.exp == iat + TOKEN_LIFETIME_SECS
        &&& c.username@ == username
    }

    /// The token that signing these claims with `secret` gives.
    pub open spec fn token(self, secret: Seq<char>) -> Seq<char> {
        hs256_jwt(self.exp, self.iat, self.username@, secret)
    }

    /// The claims for `username` issued at second `iat`: they expire 24
    /// hours later.
    pub fn issued_at(username: &str, iat: u64) -> (r: Claims)
        requires
            iat <= u64::MAX - TOKEN_LIFETIME_SECS,
        ensures
            Claims::issued(username@, iat, r),
    {
        Claims { exp: iat + TOKEN_LIFETIME_SECS, iat, username: username.to_owned() }
    }

    /// Signs the claims with `secret`.
    pub fn encode(&self, secret: &str) -> (r: Result<String, TokenError>)
        ensures
            r is Ok,
            r matches Ok(t) ==> t@ == self.token(secret@),
    {
        match sign_hs256(self.exp, self.iat, self.username.as_str(), secret) {
            Ok(t) => Ok(t),
            Err(_) => Err(TokenError::Signing),
        }
    }
}

/// `t` is a token for `username` under `secret`, issued at some second and
/// valid for 24 hours.
pub open spec fn issued_token(t: Seq<char>, username: Seq<char>, secret: Seq<char>) -> bool {
    exists|iat: u64|
        iat <= u64::MAX - TOKEN_LIFETIME_SECS
        && t == #[trigger] hs256_jwt((iat + TOKEN_LIFETIME_SECS) as u64, iat, username, secret)
}

/// The token for `username` issued at second `iat`.
pub fn encode_jwt_at(username: &str, secret: &str, iat: u64) -> (r: Result<String, TokenError>)
    requires
        iat <= u64::MAX - TOKEN_LIFETIME_SECS,
    ensures
        r is Ok,
        r matches Ok(t) ==> t@ == hs256_jwt((iat + TOKEN_LIFETIME_SECS) as u64, iat, username@, secret@),
{
    let claims = Claims::issued_at(username, iat);
    claims.encode(secret)
}

/// A token for `username`, issued now and valid for 24 hours.
pub fn encode_jwt(username: &str, secret: &str) -> (r: Result<String, TokenError>)
    ensures
        r is Ok,
        r matches Ok(t) ==> issued_token(t@, username@, secret@),
{
    let now = clock::now();
    let iat = (now.micros / crate::dtos::MICROS_PER_SECOND) as u64;
    encode_jwt_at(username, secret, iat)
}

} // verus!
