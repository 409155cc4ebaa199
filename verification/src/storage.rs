//! Local storage: its errors, the records it keeps and the repository
//! interfaces over them. The SQLite connection itself lives with the
//! application.

use vstd::prelude::*;
use crate::common::{ConversationId, DeliveryStatus, MessageEnvelope, MessageId, PeerId};

verus! {

/// The error type of `rusqlite`.
#[verifier::external_type_specification]
#[verifier::external_body]
pub struct ExSqliteError(rusqlite::Error);

/// Tells a `rusqlite::Error` apart: whether it is `QueryReturnedNoRows`,
/// and its `Display` text.
///
/// Nothing is promised of either: the error is opaque to the library.
#[verifier::external_body]
fn sqlite_failure_parts(e: &rusqlite::Error) -> (parts: (bool, String)) {
    match e {
        rusqlite::Error::QueryReturnedNoRows => (true, e.to_string()),
        _ => (false, e.to_string()),
    }
}

/// The current schema version.
pub const SCHEMA_VERSION: u32 = 1;

/// Errors of storage operations.
#[derive(Debug)]
pub enum StorageError {
    DatabaseOpen(String),
    QueryFailed(String),
    MigrationFailed(String),
    NotFound(String),
    SerializationError(String),
    DatabaseLocked,
}

impl StorageError {
    /// The error's text.
    pub open spec fn describe(&self) -> Seq<char> {
        match self {
            StorageError::DatabaseOpen(m) => "failed to open database: "@ + m@,
            StorageError::QueryFailed(m) => "query failed: "@ + m@,
            StorageError::MigrationFailed(m) => "migration failed: "@ + m@,
            StorageError::NotFound(m) => "not found: "@ + m@,
            StorageError::SerializationError(m) => "serialization error: "@ + m@,
            StorageError::DatabaseLocked => "database is locked"@,
        }
    }

    /// The error's text.
    pub fn message(&self) -> (s: String)
        ensures
            s@ == self.describe(),
    {
        match self {
            StorageError::DatabaseOpen(m) => String::from_str("failed to open database: ").concat(
                m.as_str(),
            ),
            StorageError::QueryFailed(m) => String::from_str("query failed: ").concat(m.as_str()),
            StorageError::MigrationFailed(m) => String::from_str("migration failed: ").concat(
                m.as_str(),
            ),
            StorageError::NotFound(m) => String::from_str("not found: ").concat(m.as_str()),
            StorageError::SerializationError(m) => String::from_str("serialization error: ").concat(
                m.as_str(),
            ),
            StorageError::DatabaseLocked => String::from_str("database is locked"),
        }
    }

    /// The storage error for a failed SQLite call: an empty result is
    /// `NotFound`; anything else is a failed query, carrying the failure's
    /// text.
    pub fn from_sqlite_parts(no_rows: bool, text: String) -> (e: Self)
        ensures
            no_rows ==> (e matches StorageError::NotFound(m) && m@ == "query returned no rows"@),
            !no_rows ==> (e matches StorageError::QueryFailed(m) && m@ == text@),
    {
        if no_rows {
            StorageError::NotFound(String::from_str("query returned no rows"))
        } else {
            StorageError::QueryFailed(text)
        }
    }

    /// The storage error for a `rusqlite::Error`: `NotFound` for
    /// `QueryReturnedNoRows`, a failed query otherwise.
    pub fn from_sqlite(e: rusqlite::Error) -> (r: Self)
        ensures
            (r matches StorageError::NotFound(m) && m@ == "query returned no rows"@)
                || r is QueryFailed,
    {
        let (no_rows, text) = sqlite_failure_parts(&e);
        Self::from_sqlite_parts(no_rows, text)
    }
}

/// The statement that sets the SQLCipher key of a connection.
pub fn key_pragma(passphrase: &str) -> (s: String)
    ensures
        s@ == "PRAGMA key = '"@ + passphrase@ + "';"@,
{
    String::from_str("PRAGMA key = '").concat(passphrase).concat("';")
}

// ───────────────────────────── records ─────────────────────────────

/// A conversation row.
#[derive(Debug, Clone)]
pub struct ConversationRecord {
    pub id: ConversationId,
    pub display_name: Option<String>,
    pub is_group: bool,
    /// ISO-8601 creation time.
    pub created_at: String,
    /// ISO-8601 last update time.
    pub updated_at: String,
}

/// A known peer row.
#[derive(Debug, Clone)]
pub struct PeerRecord {
    pub id: PeerId,
    pub display_name: Option<String>,
    pub signing_public_key: Option<Vec<u8>>,
    pub encryption_public_key: Option<Vec<u8>>,
    /// Trust, in parts per million (1_000_000 is full trust).
    pub trust_score_ppm: u32,
    pub is_blocked: bool,
}

/// A mesh forwarding queue row.
#[derive(Debug, Clone)]
pub struct MeshQueueEntry {
    pub id: String,
    /// The serialized envelope.
    pub envelope_data: Vec<u8>,
    pub target_peer_id: String,
    /// Scheduling priority; higher is more urgent.
    pub priority: i32,
    pub retry_count: u32,
    pub max_retries: u32,
    /// ISO-8601 expiry time.
    pub expires_at: String,
}

// ───────────────────────────── repositories ─────────────────────────────

/// Persistence of messages.
pub trait MessageRepository {
    /// Stores a new message.
    fn save(&self, envelope: &MessageEnvelope) -> Result<(), StorageError>;

    /// The message with identifier `id`.
    fn get_by_id(&self, id: &MessageId) -> Result<MessageEnvelope, StorageError>;

    /// The messages of a conversation, oldest first.
    fn get_by_conversation(&self, conversation_id: &ConversationId) -> Result<Vec<MessageEnvelope>, StorageError>;

    /// Sets the delivery status of a message.
    fn update_status(&self, id: &MessageId, status: DeliveryStatus) -> Result<(), StorageError>;

    /// Deletes a message.
    fn delete(&self, id: &MessageId) -> Result<(), StorageError>;
}

/// Persistence of conversations.
pub trait ConversationRepository {
    /// Creates a conversation and returns its identifier.
    fn create(&self, display_name: Option<&str>, is_group: bool) -> Result<ConversationId, StorageError>;

    /// The conversation with identifier `id`.
    fn get_by_id(&self, id: &ConversationId) -> Result<ConversationRecord, StorageError>;

    /// All conversations, most recently updated first.
    fn list_all(&self) -> Result<Vec<ConversationRecord>, StorageError>;

    /// Deletes a conversation and its messages.
    fn delete(&self, id: &ConversationId) -> Result<(), StorageError>;
}

/// Persistence of known peers.
pub trait PeerRepository {
    /// Inserts or updates a peer.
    fn upsert(&self, peer: &PeerRecord) -> Result<(), StorageError>;

    /// The peer with identifier `id`.
    fn get_by_id(&self, id: &PeerId) -> Result<PeerRecord, StorageError>;

    /// All known peers.
    fn list_all(&self) -> Result<Vec<PeerRecord>, StorageError>;

    /// Removes a peer.
    fn remove(&self, id: &PeerId) -> Result<(), StorageError>;
}

/// Persistence of the mesh forwarding queue.
pub trait MeshQueueRepository {
    /// Adds an entry.
    fn enqueue(&self, entry: &MeshQueueEntry) -> Result<(), StorageError>;

    /// Takes up to `limit` entries, by priority then age.
    fn dequeue_batch(&self, limit: usize) -> Result<Vec<MeshQueueEntry>, StorageError>;

    /// Removes a delivered entry.
    fn mark_delivered(&self, id: &str) -> Result<(), StorageError>;

    /// Removes the expired entries and returns how many.
    fn remove_expired(&self) -> Result<u64, StorageError>;
}

} // verus!
