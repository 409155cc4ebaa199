//! Authentication: the claims of access tokens, refresh tokens and their
//! hashes, and login challenges. Tokens are signed and checked with
//! HMAC-SHA256 by the application around this module.

use vstd::prelude::*;
use vstd::array::array_as_slice;
use vstd::string::StringSliceAdditionalSpecFns;
use crate::codec::{hex_encode, hex_text};
use crate::crypto::{sha256_digest, sha256_of};
use crate::entropy::thread_random_bytes;
use crate::ident::{uuid_text, uuid_to_string};

verus! {

/// Errors of authentication.
#[derive(Debug)]
pub enum AuthError {
    InvalidCredentials,
    TokenExpired,
    TokenInvalid(String),
    UserNotFound,
    UserAlreadyExists,
    InternalError(String),
}

impl AuthError {
    /// The error's text.
    pub open spec fn describe(&self) -> Seq<char> {
        match self {
            AuthError::InvalidCredentials => "invalid credentials"@,
            AuthError::TokenExpired => "token expired"@,
            AuthError::TokenInvalid(m) => "token invalid: "@ + m@,
            AuthError::UserNotFound => "user not found"@,
            AuthError::UserAlreadyExists => "user already exists"@,
            AuthError::InternalError(m) => "internal error: "@ + m@,
        }
    }

    /// The error's text.
    pub fn message(&self) -> (s: String)
        ensures
            s@ == self.describe(),
    {
        match self {
            AuthError::InvalidCredentials => String::from_str("invalid credentials"),
            AuthError::TokenExpired => String::from_str("token expired"),
            AuthError::TokenInvalid(m) => String::from_str("token invalid: ").concat(m.as_str()),
            AuthError::UserNotFound => String::from_str("user not found"),
            AuthError::UserAlreadyExists => String::from_str("user already exists"),
            AuthError::InternalError(m) => String::from_str("internal error: ").concat(m.as_str()),
        }
    }

    /// The error for a token that did not validate: an expired signature
    /// is `TokenExpired`; any other failure is `TokenInvalid` with the
    /// failure's text.
    pub fn from_token_failure(expired: bool, text: String) -> (e: Self)
        ensures
            expired ==> e is TokenExpired,
            !expired ==> (e matches AuthError::TokenInvalid(m) && m@ == text@),
    {
        if expired {
            AuthError::TokenExpired
        } else {
            AuthError::TokenInvalid(text)
        }
    }

    /// The error for a token that could not be signed.
    pub fn from_encoding_failure(text: &str) -> (e: Self)
        ensures
            e matches AuthError::InternalError(m) && m@ == "JWT encoding failed: "@ + text@,
    {
        AuthError::InternalError(String::from_str("JWT encoding failed: ").concat(text))
    }
}

/// The claims of an access token.
#[derive(Debug)]
pub struct JwtClaims {
    /// The user's UUID, as text.
    pub sub: String,
    pub device_id: String,
    /// Expiry, in seconds since the Unix epoch.
    pub exp: usize,
    /// Issue time, in seconds since the Unix epoch.
    pub iat: usize,
    /// The token's own UUID, as text.
    pub jti: String,
}

/// Settings of authentication.
#[derive(Debug)]
pub struct AuthConfig {
    /// The HMAC secret that signs and checks tokens.
    pub jwt_secret: String,
    /// Lifetime of access tokens, in seconds.
    pub access_token_ttl_seconds: i64,
    /// Lifetime of refresh tokens, in seconds.
    pub refresh_token_ttl_seconds: i64,
}

impl Default for AuthConfig {
    fn default() -> (c: Self)
        ensures
            c.jwt_secret@.len() == 0,
            c.access_token_ttl_seconds == 3600,
            c.refresh_token_ttl_seconds == 2_592_000,
    {
        AuthConfig {
            jwt_secret: String::new(),
            access_token_ttl_seconds: 3600,
            refresh_token_ttl_seconds: 2_592_000,
        }
    }
}

/// The authentication service.
#[derive(Debug)]
pub struct AuthService {
    pub config: AuthConfig,
}

/// Whether `bytes` is the lowercase hexadecimal text of `n` bytes.
pub open spec fn hex_of_length(text: Seq<char>, n: nat) -> bool {
    exists|bytes: Seq<u8>| bytes.len() == n && text == #[trigger] hex_text(bytes)
}

impl AuthService {
    /// A service with these settings.
    pub fn new(config: AuthConfig) -> (s: Self)
        ensures
            s.config == config,
    {
        AuthService { config }
    }

    /// The claims of an access token for `user_id` on `device_id`, issued
    /// at `now_seconds` with identifier `jti`; it expires the configured
    /// lifetime later. Times are read as unsigned machine words, and their
    /// sum must fit in one.
    pub fn access_claims(&self, user_id: u128, device_id: &str, now_seconds: i64, jti: u128) -> (c: JwtClaims)
        requires
            (now_seconds as usize) + (self.config.access_token_ttl_seconds as usize) <= usize::MAX,
        ensures
            c.sub@ == uuid_text(user_id),
            c.device_id@ == device_id@,
            c.iat == now_seconds as usize,
            c.exp == (now_seconds as usize) + (self.config.access_token_ttl_seconds as usize),
            c.jti@ == uuid_text(jti),
    {
        let now = now_seconds as usize;
        let exp = now + self.config.access_token_ttl_seconds as usize;
        JwtClaims {
            sub: uuid_to_string(user_id),
            device_id: String::from_str(device_id),
            exp,
            iat: now,
            jti: uuid_to_string(jti),
        }
    }

    /// A random 64-byte refresh token, as 128 hexadecimal digits.
    pub fn generate_refresh_token(&self) -> (t: String)
        ensures
            hex_of_length(t@, 64),
            t@.len() == 128,
    {
        let bytes = thread_random_bytes(64);
        hex_encode(bytes.as_slice())
    }

    /// The hexadecimal SHA-256 of a refresh token, as stored.
    pub fn hash_refresh_token(&self, token: &str) -> (h: String)
        ensures
            h@ == hex_text(sha256_digest(token.spec_bytes())),
    {
        let digest = sha256_of(token.as_bytes());
        hex_encode(array_as_slice(&digest))
    }

    /// A random 32-byte login challenge, as 64 hexadecimal digits.
    pub fn generate_challenge(&self, user_id: u128) -> (c: String)
        ensures
            hex_of_length(c@, 32),
            c@.len() == 64,
    {
        let bytes = thread_random_bytes(32);
        hex_encode(bytes.as_slice())
    }
}

} // verus!
