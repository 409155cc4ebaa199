//! Records of the server's database and the bodies of its requests and
//! responses. Identifiers are the 128-bit values of UUIDs.

use vstd::prelude::*;
use crate::common::Timestamp;

verus! {

/// A registered user.
#[derive(Debug)]
pub struct User {
    pub id: u128,
    pub username: String,
    pub created_at: Timestamp,
    pub updated_at: Timestamp,
}

/// A user's public keys.
#[derive(Debug)]
pub struct PublicKey {
    pub id: u128,
    pub user_id: u128,
    /// Base64 of the Ed25519 signing public key.
    pub signing_public_key: String,
    /// Base64 of the X25519 encryption public key.
    pub encryption_public_key: String,
    pub created_at: Timestamp,
    pub rotated_at: Option<Timestamp>,
}

/// A hashed refresh token of a user's device.
#[derive(Debug)]
pub struct RefreshToken {
    pub id: u128,
    pub user_id: u128,
    pub device_id: String,
    /// Hexadecimal SHA-256 of the token.
    pub refresh_token_hash: String,
    pub expires_at: Timestamp,
    pub revoked: bool,
}

/// A device registered by a user.
#[derive(Debug)]
pub struct DeviceRegistration {
    pub id: u128,
    pub user_id: u128,
    pub device_name: String,
    /// e.g. "android", "ios", "desktop".
    pub device_type: String,
    /// Base64 of the device's public key.
    pub device_public_key: String,
    pub push_token: Option<String>,
    pub last_seen: Timestamp,
}

/// An encrypted message waiting in the relay queue.
#[derive(Debug)]
pub struct EncryptedRelayMessage {
    pub id: u128,
    pub sender_id: u128,
    pub recipient_id: u128,
    /// The end-to-end encrypted payload, opaque to the server.
    pub encrypted_payload: Vec<u8>,
    pub packet_signature: Vec<u8>,
    /// Seconds the message is kept.
    pub ttl: i32,
    /// "pending", "delivered" or "expired".
    pub status: String,
    pub created_at: Timestamp,
}

/// An encrypted backup of a user's data.
#[derive(Debug)]
pub struct CloudBackup {
    pub id: u128,
    pub user_id: u128,
    pub encrypted_backup_blob: Vec<u8>,
    pub backup_version: i32,
    pub created_at: Timestamp,
    pub updated_at: Timestamp,
}

/// Body of a request to create an account.
#[derive(Debug)]
pub struct CreateUserRequest {
    pub username: String,
}

/// Body of a login request.
#[derive(Debug)]
pub struct LoginRequest {
    pub username: String,
    /// The signed challenge proving ownership of the keys.
    pub challenge_response: String,
    pub device_id: String,
}

/// Body of a response carrying tokens.
#[derive(Debug)]
pub struct TokenResponse {
    pub access_token: String,
    /// Hexadecimal refresh token.
    pub refresh_token: String,
    /// Seconds until the access token expires.
    pub expires_in: i64,
}

/// Body of an upload of public keys.
#[derive(Debug)]
pub struct PublicKeyUpload {
    /// Base64 of the Ed25519 signing public key.
    pub signing_public_key: String,
    /// Base64 of the X25519 encryption public key.
    pub encryption_public_key: String,
}

/// Body of a request to relay an encrypted message.
#[derive(Debug)]
pub struct RelayMessageRequest {
    pub recipient_id: u128,
    /// Base64 of the encrypted payload.
    pub encrypted_payload: String,
    /// Base64 of the packet signature.
    pub packet_signature: String,
    /// Seconds to keep the message, when not the default.
    pub ttl: Option<i32>,
}

/// Body of a request to register a device.
#[derive(Debug)]
pub struct DeviceRegistrationRequest {
    pub device_name: String,
    pub device_type: String,
    /// Base64 of the device's public key.
    pub device_public_key: String,
    pub push_token: Option<String>,
}

} // verus!
