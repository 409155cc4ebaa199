//! Chunked file transfers and the choice of transport for a file.

use std::collections::HashMap;
use vstd::prelude::*;
use crate::common::{Timestamp, TransportType, UserId};
use crate::ident::{is_uuid_v4, new_uuid_v4, uuid_text, uuid_to_string};

verus! {

broadcast use vstd::std_specs::hash::group_hash_axioms;

/// Errors of file transfers.
#[derive(Debug)]
pub enum FileTransferError {
    FileTooLarge { size: u64, max: u64 },
    ChunkFailed { chunk_index: u32 },
    TransferNotFound(String),
    EncryptionFailed(String),
    ResumeFailed(String),
    Cancelled,
}

/// What is known of a file to transfer.
#[derive(Debug)]
pub struct FileMetadata {
    /// The file's identifier (the 128-bit value of a UUID).
    pub file_id: u128,
    pub file_name: String,
    pub file_size: u64,
    pub mime_type: String,
    pub sha256_hash: [u8; 32],
    pub chunk_size: u32,
    pub total_chunks: u32,
    pub encrypted: bool,
}

impl Default for FileMetadata {
    fn default() -> (m: Self)
        ensures
            is_uuid_v4(m.file_id),
            m.file_name@.len() == 0,
            m.file_size == 0,
            m.mime_type@.len() == 0,
            m.sha256_hash@ == Seq::new(32, |i: int| 0u8),
            m.chunk_size == 65536,
            m.total_chunks == 0,
            m.encrypted,
    {
        let m = FileMetadata {
            file_id: new_uuid_v4(),
            file_name: String::new(),
            file_size: 0,
            mime_type: String::new(),
            sha256_hash: [0u8; 32],
            chunk_size: 65536,
            total_chunks: 0,
            encrypted: true,
        };
        assert(m.sha256_hash@ =~= Seq::new(32, |i: int| 0u8));
        m
    }
}

/// Delivery state of one chunk.
#[derive(Debug)]
pub enum ChunkState {
    Pending,
    InFlight,
    Delivered,
    Failed(String),
}

/// Lifecycle of a transfer.
#[derive(Debug)]
pub enum TransferStatus {
    Queued,
    InProgress,
    Paused,
    Completed,
    Failed(String),
    Cancelled,
}

/// Progress of one transfer.
#[derive(Debug)]
pub struct TransferState {
    pub file_id: u128,
    pub metadata: FileMetadata,
    pub chunks_completed: u32,
    pub chunks_total: u32,
    pub state: TransferStatus,
    pub started_at: Timestamp,
    pub transport_used: Option<TransportType>,
}

/// The transport for a file: BLE for a small file to a nearby peer,
/// Wi-Fi Direct for one under 50 MB to a nearby peer, else the relay when
/// online, else the mesh.
pub open spec fn transport_for_file(file_size: u64, peer_nearby: bool, internet_available: bool) -> TransportType {
    if file_size < 100_000 && peer_nearby {
        TransportType::Ble
    } else if file_size < 50_000_000 && peer_nearby {
        TransportType::WifiDirect
    } else if internet_available {
        TransportType::InternetRelay
    } else {
        TransportType::Mesh
    }
}

/// A new transfer of a file, queued at `now` with no chunk done.
pub open spec fn queued_transfer(metadata: FileMetadata, now: Timestamp) -> TransferState {
    TransferState {
        file_id: metadata.file_id,
        chunks_completed: 0,
        chunks_total: metadata.total_chunks,
        metadata,
        state: TransferStatus::Queued,
        started_at: now,
        transport_used: None,
    }
}

/// `t` with its status set to `status`.
pub open spec fn with_status(t: TransferState, status: TransferStatus) -> TransferState {
    TransferState {
        file_id: t.file_id,
        metadata: t.metadata,
        chunks_completed: t.chunks_completed,
        chunks_total: t.chunks_total,
        state: status,
        started_at: t.started_at,
        transport_used: t.transport_used,
    }
}

/// `t` with one more chunk delivered: completed once the delivered chunks
/// reach the total, its status otherwise unchanged.
pub open spec fn after_chunk(t: TransferState) -> TransferState {
    let done = t.chunks_completed + 1;
    TransferState {
        file_id: t.file_id,
        metadata: t.metadata,
        chunks_completed: done as u32,
        chunks_total: t.chunks_total,
        state: if done >= t.chunks_total {
            TransferStatus::Completed
        } else {
            t.state
        },
        started_at: t.started_at,
        transport_used: t.transport_used,
    }
}

/// The files whose transfer in `m` is in progress.
pub open spec fn in_progress(m: Map<u128, TransferState>) -> Set<u128> {
    m.dom().filter(|k: u128| m[k].state is InProgress)
}

/// The transfer engine: the transfers, keyed by file.
pub struct FileTransferEngine {
    active_transfers: HashMap<u128, TransferState>,
}

impl FileTransferEngine {
    /// The transfers, keyed by file.
    pub closed spec fn spec_transfers(&self) -> Map<u128, TransferState> {
        self.active_transfers@
    }

    /// An engine with no transfer.
    pub fn new() -> (e: Self)
        ensures
            e.spec_transfers() == Map::<u128, TransferState>::empty(),
    {
        FileTransferEngine { active_transfers: HashMap::new() }
    }

    /// Starts (or restarts) the transfer of a file at `now`, queued with no
    /// chunk done, and returns the file's identifier.
    pub fn initiate_transfer_at(&mut self, metadata: FileMetadata, _recipient: &UserId, now: Timestamp) -> (r: Result<u128, FileTransferError>)
        ensures
            r == Ok::<u128, FileTransferError>(metadata.file_id),
            final(self).spec_transfers() == old(self).spec_transfers().insert(
                metadata.file_id,
                queued_transfer(metadata, now),
            ),
    {
        let id = metadata.file_id;
        let total = metadata.total_chunks;
        let state = TransferState {
            file_id: id,
            chunks_completed: 0,
            chunks_total: total,
            metadata,
            state: TransferStatus::Queued,
            started_at: now,
            transport_used: None,
        };
        self.active_transfers.insert(id, state);
        Ok(id)
    }

    /// Starts (or restarts) the transfer of a file, dated by the system
    /// clock.
    pub fn initiate_transfer(&mut self, metadata: FileMetadata, recipient: &UserId) -> (r: Result<u128, FileTransferError>)
        ensures
            r == Ok::<u128, FileTransferError>(metadata.file_id),
            exists|now: Timestamp|
                final(self).spec_transfers() == old(self).spec_transfers().insert(
                    metadata.file_id,
                    #[trigger] queued_transfer(metadata, now),
                ),
    {
        let now = Timestamp::now();
        self.initiate_transfer_at(metadata, recipient, now)
    }

    /// The transfer of file `id`, if there is one.
    pub fn get_transfer_state(&self, id: &u128) -> (r: Option<&TransferState>)
        ensures
            r matches Some(t) ==> self.spec_transfers().contains_key(*id) && *t == self.spec_transfers()[*id],
            r is None ==> !self.spec_transfers().contains_key(*id),
    {
        self.active_transfers.get(id)
    }

    /// The error for a file with no transfer: its identifier's text.
    fn not_found(id: u128) -> (e: FileTransferError)
        ensures
            e matches FileTransferError::TransferNotFound(s) && s@ == uuid_text(id),
    {
        FileTransferError::TransferNotFound(uuid_to_string(id))
    }

    /// Sets the status of file `id`'s transfer to the one `which` names:
    /// 0 paused, 1 in progress, otherwise cancelled.
    fn set_status(&mut self, id: &u128, which: u8) -> (r: Result<(), FileTransferError>)
        ensures
            !old(self).spec_transfers().contains_key(*id) ==> (r matches Err(FileTransferError::TransferNotFound(s))
                && s@ == uuid_text(*id) && final(self).spec_transfers() == old(self).spec_transfers()),
            old(self).spec_transfers().contains_key(*id) ==> r is Ok && final(self).spec_transfers()
                == old(self).spec_transfers().insert(
                *id,
                with_status(
                    old(self).spec_transfers()[*id],
                    if which == 0 {
                        TransferStatus::Paused
                    } else if which == 1 {
                        TransferStatus::InProgress
                    } else {
                        TransferStatus::Cancelled
                    },
                ),
            ),
    {
        match self.active_transfers.remove(id) {
            Some(mut t) => {
                t.state = if which == 0 {
                    TransferStatus::Paused
                } else if which == 1 {
                    TransferStatus::InProgress
                } else {
                    TransferStatus::Cancelled
                };
                self.active_transfers.insert(*id, t);
                assert(self.active_transfers@ =~= old(self).active_transfers@.insert(
                    *id,
                    with_status(old(self).active_transfers@[*id], t.state),
                ));
                Ok(())
            },
            None => Err(Self::not_found(*id)),
        }
    }

    /// Pauses the transfer of file `id`.
    pub fn pause_transfer(&mut self, id: &u128) -> (r: Result<(), FileTransferError>)
        ensures
            !old(self).spec_transfers().contains_key(*id) ==> (r matches Err(FileTransferError::TransferNotFound(s))
                && s@ == uuid_text(*id) && final(self).spec_transfers() == old(self).spec_transfers()),
            old(self).spec_transfers().contains_key(*id) ==> r is Ok && final(self).spec_transfers()
                == old(self).spec_transfers().insert(
                *id,
                with_status(old(self).spec_transfers()[*id], TransferStatus::Paused),
            ),
    {
        self.set_status(id, 0)
    }

    /// Resumes the transfer of file `id`.
    pub fn resume_transfer(&mut self, id: &u128) -> (r: Result<(), FileTransferError>)
        ensures
            !old(self).spec_transfers().contains_key(*id) ==> (r matches Err(FileTransferError::TransferNotFound(s))
                && s@ == uuid_text(*id) && final(self).spec_transfers() == old(self).spec_transfers()),
            old(self).spec_transfers().contains_key(*id) ==> r is Ok && final(self).spec_transfers()
                == old(self).spec_transfers().insert(
                *id,
                with_status(old(self).spec_transfers()[*id], TransferStatus::InProgress),
            ),
    {
        self.set_status(id, 1)
    }

    /// Cancels the transfer of file `id`.
    pub fn cancel_transfer(&mut self, id: &u128) -> (r: Result<(), FileTransferError>)
        ensures
            !old(self).spec_transfers().contains_key(*id) ==> (r matches Err(FileTransferError::TransferNotFound(s))
                && s@ == uuid_text(*id) && final(self).spec_transfers() == old(self).spec_transfers()),
            old(self).spec_transfers().contains_key(*id) ==> r is Ok && final(self).spec_transfers()
                == old(self).spec_transfers().insert(
                *id,
                with_status(old(self).spec_transfers()[*id], TransferStatus::Cancelled),
            ),
    {
        self.set_status(id, 2)
    }

    /// Counts one more delivered chunk of file `id`; the transfer completes
    /// once every chunk is delivered.
    pub fn record_chunk_delivered(&mut self, id: &u128, _chunk_index: u32) -> (r: Result<(), FileTransferError>)
        requires
            old(self).spec_transfers().contains_key(*id) ==> old(self).spec_transfers()[*id].chunks_completed
                < u32::MAX,
        ensures
            !old(self).spec_transfers().contains_key(*id) ==> (r matches Err(FileTransferError::TransferNotFound(s))
                && s@ == uuid_text(*id) && final(self).spec_transfers() == old(self).spec_transfers()),
            old(self).spec_transfers().contains_key(*id) ==> r is Ok && final(self).spec_transfers()
                == old(self).spec_transfers().insert(*id, after_chunk(old(self).spec_transfers()[*id])),
    {
        match self.active_transfers.remove(id) {
            Some(mut t) => {
                t.chunks_completed = t.chunks_completed + 1;
                if t.chunks_completed >= t.chunks_total {
                    t.state = TransferStatus::Completed;
                }
                self.active_transfers.insert(*id, t);
                assert(self.active_transfers@ =~= old(self).active_transfers@.insert(
                    *id,
                    after_chunk(old(self).active_transfers@[*id]),
                ));
                Ok(())
            },
            None => Err(Self::not_found(*id)),
        }
    }

    /// The transport for a file of `file_size` bytes.
    pub fn select_transport_for_file(&self, file_size: u64, peer_nearby: bool, internet_available: bool) -> (t: TransportType)
        ensures
            t == transport_for_file(file_size, peer_nearby, internet_available),
    {
        if file_size < 100_000 && peer_nearby {
            TransportType::Ble
        } else if file_size < 50_000_000 && peer_nearby {
            TransportType::WifiDirect
        } else if internet_available {
            TransportType::InternetRelay
        } else {
            TransportType::Mesh
        }
    }

    /// The number of transfers in progress.
    pub fn active_transfer_count(&self) -> (n: usize)
        ensures
            n == in_progress(self.spec_transfers()).len(),
    {
        let ghost m = self.active_transfers@;
        let ghost keep = |k: u128| m[k].state is InProgress;
        let ghost mut seen: Seq<u128> = Seq::empty();
        let total = self.active_transfers.len();
        let mut count: usize = 0;
        for k in it: self.active_transfers.keys()
            invariant
                m == self.active_transfers@,
                forall|x: u128| #[trigger] keep(x) == (m[x].state is InProgress),
                it.seq().len() == m.dom().len(),
                total == m.dom().len(),
                it.seq().no_duplicates(),
                it.seq().unref().to_set() == m.dom(),
                seen == it.seq().unref().take(it.index()),
                seen.no_duplicates(),
                forall|x: u128| seen.contains(x) ==> #[trigger] m.dom().contains(x),
                count == seen.filter(keep).len(),
                count <= seen.len(),
        {
            let ghost before = seen;
            proof {
                let ks = it.seq().unref();
                assert(ks.contains(ks[it.index()]));
                assert(ks.to_set().contains(ks[it.index()]));
                seen = before.push(*k);
                assert(seen =~= ks.take(it.index() + 1));
                assert(!before.contains(*k)) by {
                    if before.contains(*k) {
                        let i = choose|i: int| 0 <= i < before.len() && before[i] == *k;
                        assert(it.seq()[i] == it.seq()[it.index()]);
                    }
                }
                before.lemma_filter_push(*k, keep);
            }
            let active = match self.active_transfers.get(k) {
                Some(t) => match t.state {
                    TransferStatus::InProgress => true,
                    _ => false,
                },
                None => false,
            };
            if active {
                count = count + 1;
            }
        }
        proof {
            seen.unique_seq_to_set();
            assert(seen.to_set().subset_of(m.dom()));
            vstd::set_lib::lemma_subset_equality(seen.to_set(), m.dom());
            crate::seq_facts::lemma_distinct_filter_len(seen, keep);
            assert(in_progress(m) =~= m.dom().filter(keep));
        }
        count
    }
}

impl Default for FileTransferEngine {
    fn default() -> (e: Self)
        ensures
            e.spec_transfers() == Map::<u128, TransferState>::empty(),
    {
        Self::new()
    }
}

/// Law: small files (under 100 KB) to a nearby peer go over BLE, and files
/// under 50 MB to a nearby peer over Wi-Fi Direct, online or not; larger
/// files, or any file with no peer nearby, go over the relay when online
/// and over the mesh otherwise.
pub proof fn lemma_transport_for_file(file_size: u64, peer_nearby: bool, internet_available: bool)
    ensures
        file_size < 100_000 && peer_nearby ==> transport_for_file(file_size, peer_nearby, internet_available)
            == TransportType::Ble,
        !peer_nearby && internet_available ==> transport_for_file(file_size, peer_nearby, internet_available)
            == TransportType::InternetRelay,
        !peer_nearby && !internet_available ==> transport_for_file(file_size, peer_nearby, internet_available)
            == TransportType::Mesh,
        100_000 <= file_size < 50_000_000 && peer_nearby ==> transport_for_file(file_size, peer_nearby, internet_available)
            == TransportType::WifiDirect,
        file_size >= 50_000_000 && peer_nearby && internet_available ==> transport_for_file(file_size, peer_nearby, internet_available)
            == TransportType::InternetRelay,
        file_size >= 50_000_000 && peer_nearby && !internet_available ==> transport_for_file(file_size, peer_nearby, internet_available)
            == TransportType::Mesh,
        file_size >= 50_000_000 ==> transport_for_file(file_size, peer_nearby, internet_available)
            != TransportType::Ble && transport_for_file(file_size, peer_nearby, internet_available)
            != TransportType::WifiDirect,
{
}

} // verus!
