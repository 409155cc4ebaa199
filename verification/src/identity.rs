//! Identity creation, unlocking and locking, and sessions.

use vstd::prelude::*;
use vstd::slice::{slice_subrange, slice_to_vec};
use vstd::array::array_as_slice;
use vstd::string::StringSliceAdditionalSpecFns;
use crate::common::{rfc3339_of_instant, DeviceId, Timestamp, UserId, EARLIEST_INSTANT_NS};
use crate::crypto::{
    aead_accepts_len, argon2_refusal, argon2id_default_key, decrypt, derive_key_from_pin,
    ed25519_public_key, generate_salt, x25519_public_key, xchacha20poly1305_open,
    xchacha20poly1305_seal, EncryptedPayload, KeyBundle,
};
use crate::ident::{is_uuid_v4, new_uuid_v4, uuid_text, uuid_to_string};

verus! {

/// Errors of identity operations.
#[derive(Debug, Clone)]
pub enum IdentityError {
    NotInitialized,
    InvalidPin,
    KeyGenerationFailed(String),
    StorageFailed(String),
    SessionExpired,
    Unauthorized,
}

impl IdentityError {
    /// The error's text.
    pub open spec fn describe(&self) -> Seq<char> {
        match self {
            IdentityError::NotInitialized => "identity not initialized"@,
            IdentityError::InvalidPin => "invalid PIN"@,
            IdentityError::KeyGenerationFailed(m) => "key generation failed: "@ + m@,
            IdentityError::StorageFailed(m) => "storage failed: "@ + m@,
            IdentityError::SessionExpired => "session expired"@,
            IdentityError::Unauthorized => "unauthorized"@,
        }
    }

    /// The error's text.
    pub fn message(&self) -> (s: String)
        ensures
            s@ == self.describe(),
    {
        match self {
            IdentityError::NotInitialized => String::from_str("identity not initialized"),
            IdentityError::InvalidPin => String::from_str("invalid PIN"),
            IdentityError::KeyGenerationFailed(m) => String::from_str("key generation failed: ").concat(
                m.as_str(),
            ),
            IdentityError::StorageFailed(m) => String::from_str("storage failed: ").concat(m.as_str()),
            IdentityError::SessionExpired => String::from_str("session expired"),
            IdentityError::Unauthorized => String::from_str("unauthorized"),
        }
    }
}

/// A user identity with its public key material.
#[derive(Debug)]
pub struct Identity {
    pub user_id: UserId,
    pub device_id: DeviceId,
    /// Ed25519 public signing key (32 bytes).
    pub signing_public_key: Vec<u8>,
    /// X25519 public encryption key (32 bytes).
    pub encryption_public_key: Vec<u8>,
    pub created_at: Timestamp,
}

impl View for Identity {
    /// User, device, signing key, encryption key, creation time.
    type V = (Seq<char>, Seq<char>, Seq<u8>, Seq<u8>, Timestamp);

    open spec fn view(&self) -> Self::V {
        (
            self.user_id@,
            self.device_id@,
            self.signing_public_key@,
            self.encryption_public_key@,
            self.created_at,
        )
    }
}

impl Clone for Identity {
    fn clone(&self) -> (c: Self)
        ensures
            c@ == self@,
    {
        Identity {
            user_id: self.user_id.clone(),
            device_id: self.device_id.clone(),
            signing_public_key: slice_to_vec(self.signing_public_key.as_slice()),
            encryption_public_key: slice_to_vec(self.encryption_public_key.as_slice()),
            created_at: self.created_at,
        }
    }
}

/// The nonce the stored key material is sealed with: 24 zero bytes.
pub open spec fn zero_nonce() -> Seq<u8> {
    Seq::new(24, |i: int| 0u8)
}

/// The public keys that unlocking reads from decrypted key material of at
/// least 64 bytes: the signing key at bytes 32..64, and the encryption key
/// at bytes 64..96 when present, else the signing key again.
pub open spec fn unlocked_keys(plain: Seq<u8>) -> (Seq<u8>, Seq<u8>) {
    let signing = plain.subrange(32, 64);
    let encryption = if plain.len() >= 96 {
        plain.subrange(64, 96)
    } else {
        signing
    };
    (signing, encryption)
}

/// The lifecycle of the user identity: create, unlock, lock.
pub struct IdentityManager {
    identity: Option<Identity>,
    unlocked: bool,
}

impl IdentityManager {
    /// The vault is unlocked exactly when it holds an identity.
    #[verifier::type_invariant]
    spec fn unlocked_iff_held(&self) -> bool {
        self.unlocked <==> self.identity is Some
    }

    /// The identity held, if unlocked.
    pub closed spec fn spec_identity(&self) -> Option<(Seq<char>, Seq<char>, Seq<u8>, Seq<u8>, Timestamp)> {
        match self.identity {
            Some(id) => Some(id@),
            None => None,
        }
    }

    /// Whether the vault is unlocked.
    pub closed spec fn spec_unlocked(&self) -> bool {
        self.unlocked
    }

    /// A locked vault holding no identity.
    pub fn new() -> (m: Self)
        ensures
            !m.spec_unlocked(),
            m.spec_identity() is None,
    {
        IdentityManager { identity: None, unlocked: false }
    }

    /// Creates a new identity: fresh key pairs, a key derived from `pin`,
    /// and random `user_…` and `device_…` identifiers; the vault is then
    /// unlocked with it. `username` is not part of the identity.
    pub fn create_identity(&mut self, username: &str, pin: &str) -> (r: Result<Identity, IdentityError>)
        ensures
            argon2_refusal(pin.spec_bytes().len() as int, 32) matches Some(t) ==> {
                &&& r matches Err(IdentityError::KeyGenerationFailed(m))
                &&& m@ == "key derivation error: "@ + ("argon2id failed: "@ + t)
                &&& final(self).spec_identity() == old(self).spec_identity()
                &&& final(self).spec_unlocked() == old(self).spec_unlocked()
            },
            argon2_refusal(pin.spec_bytes().len() as int, 32) is None ==> r is Ok,
            r matches Ok(id) ==> {
                &&& final(self).spec_unlocked()
                &&& final(self).spec_identity() == Some(id@)
                &&& exists|u: u128| is_uuid_v4(u) && id.user_id@ == "user_"@ + #[trigger] uuid_text(u)
                &&& exists|u: u128| is_uuid_v4(u) && id.device_id@ == "device_"@ + #[trigger] uuid_text(u)
                &&& id.signing_public_key@.len() == 32
                &&& id.encryption_public_key@.len() == 32
                &&& id.created_at.0 >= 0
                &&& rfc3339_of_instant(id.created_at) is Some
                &&& exists|s: Seq<u8>| id.signing_public_key@ == #[trigger] ed25519_public_key(s)
                &&& exists|s: Seq<u8>| id.encryption_public_key@ == #[trigger] x25519_public_key(s)
            },
    {
        proof {
            use_type_invariant(&*self);
        }
        let bundle = match KeyBundle::generate() {
            Ok(b) => b,
            Err(e) => return Err(IdentityError::KeyGenerationFailed(e.message())),
        };
        let salt = generate_salt();
        match derive_key_from_pin(pin, array_as_slice(&salt)) {
            Ok(_) => {},
            Err(e) => return Err(IdentityError::KeyGenerationFailed(e.message())),
        }
        let user_uuid = new_uuid_v4();
        let device_uuid = new_uuid_v4();
        let signing = bundle.signing.public_key_bytes();
        let encryption = bundle.encryption.public_key_bytes();
        let identity = Identity {
            user_id: UserId(String::from_str("user_").concat(uuid_to_string(user_uuid).as_str())),
            device_id: DeviceId(
                String::from_str("device_").concat(uuid_to_string(device_uuid).as_str()),
            ),
            signing_public_key: slice_to_vec(array_as_slice(&signing)),
            encryption_public_key: slice_to_vec(array_as_slice(&encryption)),
            created_at: Timestamp::now(),
        };
        *self = IdentityManager { identity: Some(identity.clone()), unlocked: true };
        Ok(identity)
    }

    /// Unlocks the identity whose key material `encrypted_keys` was sealed
    /// under the key that `pin` and `salt` derive, with the zero nonce.
    pub fn unlock(&mut self, pin: &str, encrypted_keys: &[u8], salt: &[u8]) -> (r: Result<
        Identity,
        IdentityError,
    >)
        ensures
            argon2_refusal(pin.spec_bytes().len() as int, salt@.len() as int) matches Some(t) ==> (
            r matches Err(IdentityError::KeyGenerationFailed(m)) && m@
                == "key derivation error: "@ + ("argon2id failed: "@ + t)),
            argon2_refusal(pin.spec_bytes().len() as int, salt@.len() as int) is None ==> {
                let opened = xchacha20poly1305_open(
                    argon2id_default_key(pin.spec_bytes(), salt@),
                    zero_nonce(),
                    encrypted_keys@,
                );
                match opened {
                    Some(plain) => if plain.len() < 64 {
                        r matches Err(IdentityError::InvalidPin)
                    } else {
                        r matches Ok(id) && id.user_id@ == "unlocked_user"@ && id.device_id@
                            == "unlocked_device"@ && (id.signing_public_key@, id.encryption_public_key@)
                            == unlocked_keys(plain)
                    },
                    None => r matches Err(IdentityError::InvalidPin),
                }
            },
            // the creation date is a reading of the clock
            r matches Ok(id) ==> id.created_at.0 >= 0 && rfc3339_of_instant(id.created_at) is Some,
            // the right PIN opens the key material sealed under it
            forall|plain: Seq<u8>|
                argon2_refusal(pin.spec_bytes().len() as int, salt@.len() as int) is None
                    && plain.len() >= 64 && aead_accepts_len(plain.len() as int) && encrypted_keys@
                    == #[trigger] xchacha20poly1305_seal(
                    argon2id_default_key(pin.spec_bytes(), salt@),
                    zero_nonce(),
                    plain,
                ) ==> (r matches Ok(id) && (id.signing_public_key@, id.encryption_public_key@)
                    == unlocked_keys(plain)),
            r matches Ok(id) ==> final(self).spec_unlocked() && final(self).spec_identity() == Some(
                id@,
            ),
            r is Err ==> final(self).spec_identity() == old(self).spec_identity()
                && final(self).spec_unlocked() == old(self).spec_unlocked(),
    {
        proof {
            use_type_invariant(&*self);
        }
        let pin_key = match derive_key_from_pin(pin, salt) {
            Ok(k) => k,
            Err(e) => return Err(IdentityError::KeyGenerationFailed(e.message())),
        };
        let payload = EncryptedPayload { ciphertext: slice_to_vec(encrypted_keys), nonce: vec![0u8; 24] };
        assert(payload.nonce@ =~= zero_nonce());
        let decrypted = match decrypt(&payload, &pin_key) {
            Ok(d) => d,
            Err(_) => return Err(IdentityError::InvalidPin),
        };
        if decrypted.len() < 64 {
            return Err(IdentityError::InvalidPin);
        }
        let signing_pub = slice_subrange(decrypted.as_slice(), 32, 64);
        let encryption_pub = if decrypted.len() >= 96 {
            slice_subrange(decrypted.as_slice(), 64, 96)
        } else {
            signing_pub
        };
        let identity = Identity {
            user_id: UserId::from_str("unlocked_user"),
            device_id: DeviceId::from_str("unlocked_device"),
            signing_public_key: slice_to_vec(signing_pub),
            encryption_public_key: slice_to_vec(encryption_pub),
            created_at: Timestamp::now(),
        };
        *self = IdentityManager { identity: Some(identity.clone()), unlocked: true };
        Ok(identity)
    }

    /// Locks the vault, dropping the identity.
    pub fn lock(&mut self)
        ensures
            !final(self).spec_unlocked(),
            final(self).spec_identity() is None,
    {
        *self = IdentityManager { identity: None, unlocked: false };
    }

    /// Whether the vault is unlocked; it is exactly when it holds an
    /// identity.
    pub fn is_unlocked(&self) -> (b: bool)
        ensures
            b == self.spec_unlocked(),
            b <==> self.spec_identity() is Some,
    {
        proof {
            use_type_invariant(self);
        }
        self.unlocked
    }

    /// The identity held, if unlocked.
    pub fn current_identity(&self) -> (r: Option<&Identity>)
        ensures
            r matches Some(id) ==> self.spec_identity() == Some(id@),
            r is None ==> self.spec_identity() is None,
            r is Some <==> self.spec_unlocked(),
    {
        proof {
            use_type_invariant(self);
        }
        match &self.identity {
            Some(id) => Some(id),
            None => None,
        }
    }

    /// A description that shows whether the vault is unlocked and holds an
    /// identity, and hides the identity.
    pub fn debug_text(&self) -> (s: String)
        ensures
            s@ == "IdentityManager { unlocked: "@ + (if self.spec_unlocked() {
                "true"@
            } else {
                "false"@
            }) + ", has_identity: "@ + (if self.spec_identity() is Some {
                "true"@
            } else {
                "false"@
            }) + " }"@,
    {
        let unlocked = if self.unlocked {
            "true"
        } else {
            "false"
        };
        let held = if self.identity.is_some() {
            "true"
        } else {
            "false"
        };
        String::from_str("IdentityManager { unlocked: ").concat(unlocked).concat(
            ", has_identity: ",
        ).concat(held).concat(" }")
    }
}

impl Default for IdentityManager {
    fn default() -> (m: Self)
        ensures
            !m.spec_unlocked(),
            m.spec_identity() is None,
    {
        IdentityManager::new()
    }
}

// ───────────────────────────── sessions ─────────────────────────────

/// An authenticated session bound to a device.
#[derive(Debug)]
pub struct Session {
    pub access_token: String,
    pub refresh_token: String,
    pub expires_at: Timestamp,
    pub device_id: DeviceId,
}

/// Five minutes, in nanoseconds.
pub const REFRESH_MARGIN_NS: i128 = 300_000_000_000;

/// The instant from which a session should be refreshed: five minutes
/// before it expires, or its expiry itself where five minutes earlier lies
/// before the earliest instant that `chrono` represents.
pub open spec fn refresh_threshold(expires_at: Timestamp) -> int {
    if expires_at.0 - REFRESH_MARGIN_NS >= EARLIEST_INSTANT_NS {
        expires_at.0 - REFRESH_MARGIN_NS
    } else {
        expires_at.0 as int
    }
}

/// A session expiring at `expires_at` has expired at `now`.
pub open spec fn expired_at(expires_at: Timestamp, now: Timestamp) -> bool {
    now.0 >= expires_at.0
}

/// A session expiring at `expires_at` is due for refreshing at `now`.
pub open spec fn due_for_refresh(expires_at: Timestamp, now: Timestamp) -> bool {
    now.0 >= refresh_threshold(expires_at)
}

impl Session {
    /// Whether the session has expired at `now`.
    pub fn is_expired_at(&self, now: Timestamp) -> (b: bool)
        ensures
            b == expired_at(self.expires_at, now),
    {
        now.0 >= self.expires_at.0
    }

    /// Whether the session has expired, by the system clock.
    pub fn is_expired(&self) -> (b: bool)
        ensures
            exists|now: Timestamp| b == #[trigger] expired_at(self.expires_at, now),
    {
        let now = Timestamp::now();
        self.is_expired_at(now)
    }

    /// Whether the session expires within five minutes of `now` and should
    /// be refreshed.
    pub fn needs_refresh_at(&self, now: Timestamp) -> (b: bool)
        ensures
            b == due_for_refresh(self.expires_at, now),
    {
        let threshold = if self.expires_at.0 >= EARLIEST_INSTANT_NS + REFRESH_MARGIN_NS {
            self.expires_at.0 - REFRESH_MARGIN_NS
        } else {
            self.expires_at.0
        };
        now.0 >= threshold
    }

    /// Whether the session expires within five minutes and should be
    /// refreshed, by the system clock.
    pub fn needs_refresh(&self) -> (b: bool)
        ensures
            exists|now: Timestamp| b == #[trigger] due_for_refresh(self.expires_at, now),
    {
        let now = Timestamp::now();
        self.needs_refresh_at(now)
    }
}

/// Law: a session that has expired needs refreshing.
pub proof fn lemma_expired_needs_refresh(expires_at: Timestamp, now: Timestamp)
    requires
        expired_at(expires_at, now),
    ensures
        due_for_refresh(expires_at, now),
{
}

} // verus!
