use gupt::common::{MessageId, PeerId, Timestamp, UserId};
use gupt::mesh::{MeshAction, MeshEngine, MeshError, MeshPacket};

fn packet(id: u128, to: &str, hops: u8, max: u8, ttl: u32) -> MeshPacket {
    MeshPacket {
        message_id: MessageId(id),
        sender: UserId::from_str("alice"),
        recipient: UserId::from_str(to),
        encrypted_payload: vec![9],
        signature: vec![],
        nonce: vec![],
        ttl_seconds: ttl,
        created_at: ms(0),
        hop_count: hops,
        max_hops: max,
        relay_path: vec![],
    }
}

#[test]
fn incoming_packets_are_classified() {
    let mut e = MeshEngine::new();
    let me = UserId::from_str("bob");
    assert!(matches!(e.process_incoming_at(packet(1, "bob", 0, 5, 60), &me, ms(1_000)), MeshAction::DeliverLocally(_)));
    assert!(matches!(e.process_incoming_at(packet(1, "bob", 0, 5, 60), &me, ms(1_000)), MeshAction::Duplicate));
    assert!(matches!(e.process_incoming_at(packet(2, "carol", 0, 5, 60), &me, ms(1_000)), MeshAction::RelayForward(_)));
    assert!(matches!(e.process_incoming_at(packet(3, "carol", 5, 5, 60), &me, ms(1_000)), MeshAction::MaxHopsReached));
    assert!(matches!(e.process_incoming_at(packet(4, "bob", 0, 5, 60), &me, ms(61_000)), MeshAction::Expired));
    assert!(e.is_duplicate(&MessageId(4)));
    assert!(!e.is_duplicate(&MessageId(5)));
}

#[test]
fn redelivered_message_is_a_duplicate_even_later() {
    let mut e = MeshEngine::default();
    let me = UserId::from_str("bob");
    let _ = e.process_incoming_at(packet(8, "carol", 0, 5, 60), &me, ms(0));
    assert!(matches!(e.process_incoming_at(packet(8, "bob", 0, 5, 60), &me, ms(500_000)), MeshAction::Duplicate));
}

#[test]
fn queue_refuses_expired_and_exhausted_packets() {
    let mut e = MeshEngine::new();
    assert!(matches!(e.queue_for_mesh_at(packet(1, "x", 0, 5, 10), ms(11_000)), Err(MeshError::TTLExpired(MessageId(1)))));
    assert!(matches!(e.queue_for_mesh_at(packet(2, "x", 5, 5, 10), ms(0)), Err(MeshError::MaxHopsReached(MessageId(2)))));
    assert!(e.queue_for_mesh_at(packet(3, "x", 4, 5, 10), ms(0)).is_ok());
}

#[test]
fn pending_skips_packets_the_peer_relayed() {
    let mut e = MeshEngine::new();
    let mut relayed = packet(1, "x", 0, 5, 60);
    relayed.increment_hop(PeerId::from_str("p1"));
    assert_eq!(relayed.hop_count, 1);
    assert!(relayed.relayed_by_peer(&PeerId::from_str("p1")));
    e.queue_for_mesh_at(relayed, ms(0)).unwrap();
    e.queue_for_mesh_at(packet(2, "x", 0, 5, 60), ms(0)).unwrap();
    let for_p1: Vec<u128> = e.get_pending_for_relay_at(&PeerId::from_str("p1"), ms(0)).iter().map(|p| p.message_id.0).collect();
    assert_eq!(for_p1, vec![2]);
    let for_p2 = e.get_pending_for_relay_at(&PeerId::from_str("p2"), ms(0));
    assert_eq!(for_p2.len(), 2);
    assert_eq!(e.get_pending_for_relay_at(&PeerId::from_str("p2"), ms(61_000)).len(), 0);
}

#[test]
fn delivered_and_expired_packets_leave() {
    let mut e = MeshEngine::new();
    e.queue_for_mesh_at(packet(1, "x", 0, 5, 10), ms(0)).unwrap();
    e.queue_for_mesh_at(packet(2, "x", 0, 5, 100), ms(0)).unwrap();
    e.queue_for_mesh_at(packet(3, "x", 0, 5, 100), ms(0)).unwrap();
    e.remove_delivered(&MessageId(3));
    assert_eq!(e.purge_expired_at(ms(20_000)), 1);
    assert_eq!(e.get_pending_for_relay_at(&PeerId::from_str("p"), ms(20_000)).len(), 1);
}

#[test]
fn expiry_and_hops_by_packet() {
    let p = packet(1, "x", 4, 5, 10);
    assert!(!p.is_expired_at(ms(10_999)));
    assert!(p.is_expired_at(ms(11_000)));
    assert!(p.can_hop_at(ms(0)));
    assert!(!packet(1, "x", 5, 5, 10).can_hop_at(ms(0)));
    assert!(packet(1, "x", 0, 5, 10).is_expired());
    assert!(!packet(1, "x", 0, 5, 10).can_hop());
}

/// The instant `x` milliseconds after the Unix epoch.
fn ms(x: i64) -> Timestamp {
    Timestamp(x as i128 * 1_000_000)
}
