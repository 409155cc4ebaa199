use gupt::common::{PeerId, Timestamp, TransportType, UserId};
use gupt::discovery::{DiscoveredPeer, DiscoveryManager, PeerCapabilities};
use gupt::file_transfer::{FileMetadata, FileTransferEngine, FileTransferError, TransferStatus};

fn metadata(id: u128, chunks: u32) -> FileMetadata {
    let mut m = FileMetadata::default();
    m.file_id = id;
    m.file_name = "photo.jpg".to_string();
    m.file_size = 1_000;
    m.total_chunks = chunks;
    m
}

#[test]
fn default_metadata() {
    let m = FileMetadata::default();
    assert_eq!(m.chunk_size, 65536);
    assert_eq!(m.total_chunks, 0);
    assert!(m.encrypted);
    assert_eq!(m.sha256_hash, [0u8; 32]);
    assert_eq!((m.file_id >> 76) & 0xF, 4);
    assert_eq!((m.file_id >> 62) & 0b11, 0b10);
}

#[test]
fn transfer_lifecycle() {
    let mut e = FileTransferEngine::new();
    let bob = UserId::from_str("bob");
    assert_eq!(e.initiate_transfer_at(metadata(7, 2), &bob, ms(100)).unwrap(), 7);
    let t = e.get_transfer_state(&7).unwrap();
    assert!(matches!(t.state, TransferStatus::Queued));
    assert_eq!(t.started_at, ms(100));
    assert_eq!(e.active_transfer_count(), 0);
    e.resume_transfer(&7).unwrap();
    assert_eq!(e.active_transfer_count(), 1);
    e.record_chunk_delivered(&7, 0).unwrap();
    assert_eq!(e.get_transfer_state(&7).unwrap().chunks_completed, 1);
    assert!(matches!(e.get_transfer_state(&7).unwrap().state, TransferStatus::InProgress));
    e.record_chunk_delivered(&7, 1).unwrap();
    assert!(matches!(e.get_transfer_state(&7).unwrap().state, TransferStatus::Completed));
    assert_eq!(e.active_transfer_count(), 0);
    e.pause_transfer(&7).unwrap();
    assert!(matches!(e.get_transfer_state(&7).unwrap().state, TransferStatus::Paused));
    e.cancel_transfer(&7).unwrap();
    assert!(matches!(e.get_transfer_state(&7).unwrap().state, TransferStatus::Cancelled));
}

#[test]
fn unknown_transfer_is_not_found() {
    let mut e = FileTransferEngine::default();
    match e.pause_transfer(&0x67e5_5044_10b1_426f_9247_bb68_0e5f_e0c8) {
        Err(FileTransferError::TransferNotFound(s)) => assert_eq!(s, "67e55044-10b1-426f-9247-bb680e5fe0c8"),
        other => panic!("unexpected {:?}", other),
    }
    assert!(e.record_chunk_delivered(&1, 0).is_err());
    assert!(e.get_transfer_state(&1).is_none());
}

#[test]
fn restarting_a_transfer_replaces_it() {
    let mut e = FileTransferEngine::new();
    let bob = UserId::from_str("bob");
    e.initiate_transfer_at(metadata(7, 3), &bob, ms(1)).unwrap();
    e.record_chunk_delivered(&7, 0).unwrap();
    e.initiate_transfer(metadata(7, 3), &bob).unwrap();
    assert_eq!(e.get_transfer_state(&7).unwrap().chunks_completed, 0);
}

#[test]
fn counts_only_transfers_in_progress() {
    let mut e = FileTransferEngine::new();
    let bob = UserId::from_str("bob");
    for id in 1..=5u128 {
        e.initiate_transfer_at(metadata(id, 4), &bob, ms(0)).unwrap();
    }
    e.resume_transfer(&1).unwrap();
    e.resume_transfer(&3).unwrap();
    e.resume_transfer(&5).unwrap();
    assert_eq!(e.active_transfer_count(), 3);
    e.pause_transfer(&3).unwrap();
    assert_eq!(e.active_transfer_count(), 2);
    assert!(matches!(e.get_transfer_state(&2).unwrap().state, TransferStatus::Queued));
}

#[test]
fn transport_by_size_and_reach() {
    let e = FileTransferEngine::new();
    assert_eq!(e.select_transport_for_file(99_999, true, true), TransportType::Ble);
    assert_eq!(e.select_transport_for_file(100_000, true, true), TransportType::WifiDirect);
    assert_eq!(e.select_transport_for_file(50_000_000, true, true), TransportType::InternetRelay);
    assert_eq!(e.select_transport_for_file(10, false, false), TransportType::Mesh);
}

fn peer(id: &str, last_seen: i64) -> DiscoveredPeer {
    DiscoveredPeer {
        peer_id: PeerId::from_str(id),
        display_name: Some(format!("{id}'s phone")),
        transport_type: TransportType::Ble,
        rssi: Some(-60),
        discovered_at: ms(0),
        last_seen: ms(last_seen),
        capabilities: PeerCapabilities::default(),
    }
}

#[test]
fn default_capabilities() {
    let c = PeerCapabilities::default();
    assert!(c.supports_ble && c.supports_mesh);
    assert!(!c.supports_wifi_direct && !c.supports_internet_relay);
    assert_eq!(c.max_payload_size, 100_000);
}

#[test]
fn discovered_peers_are_kept_once_and_refreshed() {
    let mut m = DiscoveryManager::new();
    m.on_peer_discovered_at(peer("a", 0), ms(1_000));
    m.on_peer_discovered_at(peer("b", 0), ms(2_000));
    m.on_peer_discovered_at(peer("a", 0), ms(3_000));
    let all = m.get_nearby_peers();
    assert_eq!(all.len(), 2);
    assert_eq!(all[0].peer_id, PeerId::from_str("a"));
    assert_eq!(all[0].last_seen, ms(3_000));
    assert_eq!(m.get_peer(&PeerId::from_str("b")).unwrap().last_seen, ms(2_000));
    m.on_peer_lost(&PeerId::from_str("a"));
    assert!(m.get_peer(&PeerId::from_str("a")).is_none());
    assert_eq!(m.get_nearby_peers().len(), 1);
    m.on_peer_discovered(peer("c", 0));
    assert!(m.get_peer(&PeerId::from_str("c")).unwrap().last_seen.0 > 0);
}

#[test]
fn stale_peers_are_purged() {
    let mut m = DiscoveryManager::default();
    m.on_peer_discovered_at(peer("a", 0), ms(0));
    m.on_peer_discovered_at(peer("b", 0), ms(50_000));
    assert_eq!(m.purge_stale_at(60, ms(60_999)), 0);
    assert_eq!(m.purge_stale_at(60, ms(61_000)), 1);
    assert!(m.get_peer(&PeerId::from_str("b")).is_some());
    assert_eq!(m.purge_stale(60), 1);
}

#[test]
fn radio_modes() {
    let mut m = DiscoveryManager::new();
    assert!(!m.is_scanning() && !m.is_advertising());
    m.set_scanning(true);
    m.set_advertising(true);
    assert!(m.is_scanning() && m.is_advertising());
    m.set_scanning(false);
    assert!(!m.is_scanning() && m.is_advertising());
}

#[test]
fn losing_a_new_peer_restores_the_known_peers() {
    let mut m = DiscoveryManager::new();
    m.on_peer_discovered_at(peer("a", 0), ms(1));
    m.on_peer_discovered_at(peer("b", 0), ms(2));
    m.on_peer_lost(&PeerId::from_str("b"));
    let all = m.get_nearby_peers();
    assert_eq!(all.len(), 1);
    assert_eq!(all[0].peer_id, PeerId::from_str("a"));
    assert_eq!(all[0].last_seen, ms(1));
}

/// The instant `x` milliseconds after the Unix epoch.
fn ms(x: i64) -> Timestamp {
    Timestamp(x as i128 * 1_000_000)
}
