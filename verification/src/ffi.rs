//! The engine that the mobile applications drive, and the flat error type
//! they see.

use vstd::prelude::*;
use crate::common::GuptError as CoreError;
use crate::crypto::{argon2_refusal, CryptoError};
use vstd::string::StringSliceAdditionalSpecFns;
use crate::identity::{IdentityError, IdentityManager};
use crate::ident::{is_uuid_v4, new_uuid_v4, uuid_text, uuid_to_string};
use crate::routing::{RoutingEngine, RoutingWeight};
use crate::storage::StorageError;

verus! {

/// The flat error type of the engine's interface.
#[derive(Debug)]
pub enum GuptError {
    Crypto(String),
    Storage(String),
    Transport(String),
    Identity(String),
    Network(String),
    Serialization(String),
    InvalidInput(String),
    NotFound(String),
    Unauthorized(String),
    Internal(String),
}

impl GuptError {
    /// The error's text.
    pub open spec fn describe(&self) -> Seq<char> {
        match self {
            GuptError::Crypto(m) => "Cryptography Error: "@ + m@,
            GuptError::Storage(m) => "Storage Error: "@ + m@,
            GuptError::Transport(m) => "Transport Error: "@ + m@,
            GuptError::Identity(m) => "Identity Error: "@ + m@,
            GuptError::Network(m) => "Network Error: "@ + m@,
            GuptError::Serialization(m) => "Serialization Error: "@ + m@,
            GuptError::InvalidInput(m) => "Invalid Input: "@ + m@,
            GuptError::NotFound(m) => "Not Found: "@ + m@,
            GuptError::Unauthorized(m) => "Unauthorized: "@ + m@,
            GuptError::Internal(m) => "Internal Error: "@ + m@,
        }
    }

    /// The error's text.
    pub fn message(&self) -> (s: String)
        ensures
            s@ == self.describe(),
    {
        match self {
            GuptError::Crypto(m) => String::from_str("Cryptography Error: ").concat(m.as_str()),
            GuptError::Storage(m) => String::from_str("Storage Error: ").concat(m.as_str()),
            GuptError::Transport(m) => String::from_str("Transport Error: ").concat(m.as_str()),
            GuptError::Identity(m) => String::from_str("Identity Error: ").concat(m.as_str()),
            GuptError::Network(m) => String::from_str("Network Error: ").concat(m.as_str()),
            GuptError::Serialization(m) => String::from_str("Serialization Error: ").concat(m.as_str()),
            GuptError::InvalidInput(m) => String::from_str("Invalid Input: ").concat(m.as_str()),
            GuptError::NotFound(m) => String::from_str("Not Found: ").concat(m.as_str()),
            GuptError::Unauthorized(m) => String::from_str("Unauthorized: ").concat(m.as_str()),
            GuptError::Internal(m) => String::from_str("Internal Error: ").concat(m.as_str()),
        }
    }

    /// The engine's error for an identity error: a wrong PIN or a refused
    /// access is unauthorized; anything else carries the identity error's
    /// text.
    pub fn from_identity(err: IdentityError) -> (e: Self)
        ensures
            err is InvalidPin ==> (e matches GuptError::Unauthorized(m) && m@ == "Invalid PIN"@),
            err is Unauthorized ==> (e matches GuptError::Unauthorized(m) && m@
                == "Unauthorized access"@),
            !(err is InvalidPin) && !(err is Unauthorized) ==> (e matches GuptError::Identity(m)
                && m@ == err.describe()),
    {
        match err {
            IdentityError::InvalidPin => GuptError::Unauthorized(String::from_str("Invalid PIN")),
            IdentityError::Unauthorized => GuptError::Unauthorized(
                String::from_str("Unauthorized access"),
            ),
            _ => GuptError::Identity(err.message()),
        }
    }

    /// The engine's error for a storage error: a missing record is not
    /// found, with its detail; anything else carries the storage error's
    /// text.
    pub fn from_storage(err: StorageError) -> (e: Self)
        ensures
            err matches StorageError::NotFound(d) ==> (e matches GuptError::NotFound(m) && m@ == d@),
            !(err is NotFound) ==> (e matches GuptError::Storage(m) && m@ == err.describe()),
    {
        match err {
            StorageError::NotFound(d) => GuptError::NotFound(d),
            _ => GuptError::Storage(err.message()),
        }
    }

    /// The engine's error for a cryptographic error, carrying its text.
    pub fn from_crypto(err: CryptoError) -> (e: Self)
        ensures
            e matches GuptError::Crypto(m) && m@ == err.describe(),
    {
        GuptError::Crypto(err.message())
    }
}

impl From<CoreError> for GuptError {
    fn from(err: CoreError) -> (e: Self) {
        match err {
            CoreError::Crypto(m) => GuptError::Crypto(m),
            CoreError::Storage(m) => GuptError::Storage(m),
            CoreError::Transport(m) => GuptError::Transport(m),
            CoreError::Identity(m) => GuptError::Identity(m),
            CoreError::Network(m) => GuptError::Network(m),
            CoreError::Serialization(m) => GuptError::Serialization(m),
            CoreError::InvalidInput(m) => GuptError::InvalidInput(m),
            CoreError::NotFound(m) => GuptError::NotFound(m),
            CoreError::Unauthorized(m) => GuptError::Unauthorized(m),
            CoreError::Internal(m) => GuptError::Internal(m),
        }
    }
}

impl vstd::std_specs::convert::FromSpecImpl<CoreError> for GuptError {
    open spec fn obeys_from_spec() -> bool {
        true
    }

    open spec fn from_spec(err: CoreError) -> Self {
        match err {
            CoreError::Crypto(m) => GuptError::Crypto(m),
            CoreError::Storage(m) => GuptError::Storage(m),
            CoreError::Transport(m) => GuptError::Transport(m),
            CoreError::Identity(m) => GuptError::Identity(m),
            CoreError::Network(m) => GuptError::Network(m),
            CoreError::Serialization(m) => GuptError::Serialization(m),
            CoreError::InvalidInput(m) => GuptError::InvalidInput(m),
            CoreError::NotFound(m) => GuptError::NotFound(m),
            CoreError::Unauthorized(m) => GuptError::Unauthorized(m),
            CoreError::Internal(m) => GuptError::Internal(m),
        }
    }
}

/// A message as the applications show it.
#[derive(Debug)]
pub struct Message {
    pub id: String,
    pub conversation_id: String,
    pub sender_id: String,
    pub recipient_id: String,
    pub message_type: String,
    pub payload: String,
    pub ttl_seconds: u32,
    pub delivery_status: String,
    pub created_at: String,
}

/// A conversation as the applications show it.
#[derive(Debug)]
pub struct Conversation {
    pub id: String,
    pub display_name: Option<String>,
    pub is_group: bool,
    pub created_at: String,
    pub updated_at: String,
    pub last_message_at: Option<String>,
}

/// A peer as the applications show it.
#[derive(Debug)]
pub struct Peer {
    pub id: String,
    pub display_name: Option<String>,
    /// Trust, in parts per million (1_000_000 is full trust).
    pub trust_score_ppm: u32,
    pub is_blocked: bool,
}

/// The engine behind the applications: the identity vault and the router.
pub struct GuptEngine {
    identity_manager: IdentityManager,
    routing_engine: RoutingEngine,
}

impl GuptEngine {
    /// Whether the identity is unlocked.
    pub closed spec fn spec_unlocked(&self) -> bool {
        self.identity_manager.spec_unlocked()
    }

    /// The engine of a freshly opened store: since no identity is unlocked
    /// yet, one is created for the user "User" under `pin`; the router uses
    /// the default weights.
    pub fn start(pin: &str) -> (r: Result<GuptEngine, GuptError>)
        ensures
            r is Ok <==> argon2_refusal(pin.spec_bytes().len() as int, 32) is None,
            r matches Ok(engine) ==> engine.spec_unlocked(),
            argon2_refusal(pin.spec_bytes().len() as int, 32) matches Some(t) ==> (r matches Err(
                GuptError::Identity(m),
            ) && m@ == "key generation failed: "@ + ("key derivation error: "@ + (
            "argon2id failed: "@ + t))),
    {
        let mut identity_manager = IdentityManager::default();
        if !identity_manager.is_unlocked() {
            match identity_manager.create_identity("User", pin) {
                Ok(_) => {},
                Err(e) => return Err(GuptError::from_identity(e)),
            }
        }
        let routing_engine = RoutingEngine::new(RoutingWeight::default());
        Ok(GuptEngine { identity_manager, routing_engine })
    }

    /// Locks the identity.
    pub fn lock(&mut self)
        ensures
            !final(self).spec_unlocked(),
    {
        self.identity_manager.lock();
    }

    /// Whether the identity is unlocked.
    pub fn is_unlocked(&self) -> (b: bool)
        ensures
            b == self.spec_unlocked(),
    {
        self.identity_manager.is_unlocked()
    }

    /// Accepts a message for sending and returns its new identifier; refused
    /// while the identity is locked.
    pub fn send_message(&self, conversation_id: String, content: String) -> (r: Result<String, GuptError>)
        ensures
            !self.spec_unlocked() ==> (r matches Err(GuptError::Unauthorized(m)) && m@
                == "Identity is locked"@),
            self.spec_unlocked() ==> (r matches Ok(id) && exists|u: u128| is_uuid_v4(u) && id@ == #[trigger] uuid_text(u)),
    {
        if !self.is_unlocked() {
            return Err(GuptError::Unauthorized(String::from_str("Identity is locked")));
        }
        Ok(uuid_to_string(new_uuid_v4()))
    }

    /// The conversations to show; a fixed sample until storage is wired.
    pub fn get_conversations(&self) -> (r: Result<Vec<Conversation>, GuptError>)
        ensures
            r is Ok,
            r matches Ok(v) ==> {
                &&& v@.len() == 1
                &&& v@[0].id@ == "1"@
                &&& (v@[0].display_name matches Some(n) && n@ == "Alice"@)
                &&& !v@[0].is_group
                &&& v@[0].created_at@ == "2026-06-20T10:00:00Z"@
                &&& v@[0].updated_at@ == "2026-06-25T10:42:00Z"@
                &&& (v@[0].last_message_at matches Some(t) && t@ == "2026-06-25T10:42:00Z"@)
            },
    {
        let mut v: Vec<Conversation> = Vec::new();
        v.push(
            Conversation {
                id: String::from_str("1"),
                display_name: Some(String::from_str("Alice")),
                is_group: false,
                created_at: String::from_str("2026-06-20T10:00:00Z"),
                updated_at: String::from_str("2026-06-25T10:42:00Z"),
                last_message_at: Some(String::from_str("2026-06-25T10:42:00Z")),
            },
        );
        Ok(v)
    }

    /// The messages of a conversation; none until storage is wired.
    pub fn get_messages(&self, conversation_id: String) -> (r: Result<Vec<Message>, GuptError>)
        ensures
            r matches Ok(v) && v@.len() == 0,
    {
        Ok(Vec::new())
    }

    /// The peers nearby; a fixed sample until discovery is wired.
    pub fn get_nearby_peers(&self) -> (r: Result<Vec<Peer>, GuptError>)
        ensures
            r is Ok,
            r matches Ok(v) ==> {
                &&& v@.len() == 1
                &&& v@[0].id@ == "peer_1"@
                &&& (v@[0].display_name matches Some(n) && n@ == "Bob's Phone"@)
                &&& v@[0].trust_score_ppm == 800_000
                &&& !v@[0].is_blocked
            },
    {
        let mut v: Vec<Peer> = Vec::new();
        v.push(
            Peer {
                id: String::from_str("peer_1"),
                display_name: Some(String::from_str("Bob's Phone")),
                trust_score_ppm: 800_000,
                is_blocked: false,
            },
        );
        Ok(v)
    }

    /// Starts a call and returns its session identifier.
    pub fn start_call(&self, phone_number: String) -> (r: Result<String, GuptError>)
        ensures
            r matches Ok(id) && exists|u: u128| is_uuid_v4(u) && id@ == #[trigger] uuid_text(u),
    {
        Ok(uuid_to_string(new_uuid_v4()))
    }

    /// Accepts a call.
    pub fn accept_call(&self, session_id: String) -> (r: Result<(), GuptError>)
        ensures
            r is Ok,
    {
        Ok(())
    }

    /// Rejects a call.
    pub fn reject_call(&self, session_id: String) -> (r: Result<(), GuptError>)
        ensures
            r is Ok,
    {
        Ok(())
    }

    /// Ends a call.
    pub fn end_call(&self, session_id: String) -> (r: Result<(), GuptError>)
        ensures
            r is Ok,
    {
        Ok(())
    }

    /// Mutes the microphone.
    pub fn mute(&self) -> (r: Result<(), GuptError>)
        ensures
            r is Ok,
    {
        Ok(())
    }

    /// Unmutes the microphone.
    pub fn unmute(&self) -> (r: Result<(), GuptError>)
        ensures
            r is Ok,
    {
        Ok(())
    }

    /// Toggles the speaker.
    pub fn toggle_speaker(&self) -> (r: Result<(), GuptError>)
        ensures
            r is Ok,
    {
        Ok(())
    }
}

} // verus!
