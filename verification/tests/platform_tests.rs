use gupt::common::{GuptError as CoreError, MessageId, TransportType};
use gupt::crypto::CryptoError;
use gupt::ffi::{GuptEngine, GuptError};
use gupt::identity::IdentityError;
use gupt::notification::{NotificationEngine, NotificationType};
use gupt::storage::{key_pragma, StorageError, SCHEMA_VERSION};
use gupt::text::decimal_string;
use gupt::transport::{first_of_kind, select_available, transport_name_str, TransportError};

#[test]
fn message_notification() {
    let _ = NotificationEngine::new();
    let n = NotificationEngine::create_message_notification("Alice", "See you at 5");
    assert_eq!(n.title, "New message from Alice");
    assert_eq!(n.body, "See you at 5");
    assert_eq!(n.notification_type, NotificationType::NewMessage);
    assert!(n.metadata.is_empty());
}

#[test]
fn delivery_notification_carries_the_message_id() {
    let n = NotificationEngine::create_delivery_notification(&MessageId(0x67e5_5044_10b1_426f_9247_bb68_0e5f_e0c8));
    assert_eq!(n.title, "Message Delivered");
    assert_eq!(n.body, "Your message was securely delivered.");
    assert_eq!(n.notification_type, NotificationType::MessageDelivered);
    assert_eq!(n.metadata, vec![("message_id".to_string(), "67e55044-10b1-426f-9247-bb680e5fe0c8".to_string())]);
}

#[test]
fn peer_notification() {
    let n = NotificationEngine::create_peer_notification("Bob's Phone");
    assert_eq!(n.title, "Peer Discovered");
    assert_eq!(n.body, "Bob's Phone is nearby on the mesh network.");
    assert_eq!(n.notification_type, NotificationType::PeerDiscovered);
}

#[test]
fn storage_errors() {
    assert_eq!(SCHEMA_VERSION, 1);
    assert_eq!(StorageError::DatabaseLocked.message(), "database is locked");
    assert!(matches!(StorageError::from_sqlite_parts(true, "x".into()), StorageError::NotFound(m) if m == "query returned no rows"));
    assert!(matches!(StorageError::from_sqlite_parts(false, "disk I/O error".into()), StorageError::QueryFailed(m) if m == "disk I/O error"));
    assert!(matches!(StorageError::from_sqlite(rusqlite::Error::QueryReturnedNoRows), StorageError::NotFound(_)));
    assert!(matches!(StorageError::from_sqlite(rusqlite::Error::InvalidQuery), StorageError::QueryFailed(_)));
    assert_eq!(key_pragma("pw"), "PRAGMA key = 'pw';");
}

#[test]
fn transport_errors_and_selection() {
    assert_eq!(TransportError::NotAvailable(TransportType::WifiDirect).message(), "Transport WifiDirect is not available");
    assert_eq!(TransportError::PayloadTooLarge { size: 300, max: 256 }.message(), "Payload too large: 300 > 256");
    assert_eq!(TransportError::Timeout.message(), "Operation timed out");
    assert_eq!(transport_name_str(TransportType::InternetRelay), "InternetRelay");
    let kinds = vec![TransportType::Ble, TransportType::Mesh, TransportType::InternetRelay, TransportType::Mesh];
    assert_eq!(select_available(&kinds, &vec![false, true, true, false]), vec![TransportType::Mesh, TransportType::InternetRelay]);
    assert_eq!(first_of_kind(&kinds, TransportType::Mesh), Some(1));
    assert_eq!(first_of_kind(&kinds, TransportType::WifiDirect), None);
}

#[test]
fn decimal_text_of_numbers() {
    assert_eq!(decimal_string(0), "0");
    assert_eq!(decimal_string(10), "10");
    assert_eq!(decimal_string(4_294_967_296), "4294967296");
}

#[test]
fn engine_errors_map_from_components() {
    assert!(matches!(GuptError::from_identity(IdentityError::InvalidPin), GuptError::Unauthorized(m) if m == "Invalid PIN"));
    assert!(matches!(GuptError::from_identity(IdentityError::Unauthorized), GuptError::Unauthorized(m) if m == "Unauthorized access"));
    assert!(matches!(GuptError::from_identity(IdentityError::SessionExpired), GuptError::Identity(m) if m == "session expired"));
    assert!(matches!(GuptError::from_storage(StorageError::NotFound("row".into())), GuptError::NotFound(m) if m == "row"));
    assert!(matches!(GuptError::from_storage(StorageError::DatabaseLocked), GuptError::Storage(m) if m == "database is locked"));
    assert!(matches!(GuptError::from_crypto(CryptoError::Signing("s".into())), GuptError::Crypto(m) if m == "signing error: s"));
    assert!(matches!(GuptError::from(CoreError::Network("down".into())), GuptError::Network(m) if m == "down"));
    assert_eq!(GuptError::Unauthorized("Identity is locked".into()).message(), "Unauthorized: Identity is locked");
}

#[test]
fn engine_sends_only_while_unlocked() {
    let mut e = GuptEngine::start("123456").unwrap();
    assert!(e.is_unlocked());
    let id = e.send_message("1".into(), "hi".into()).unwrap();
    assert_eq!(id.len(), 36);
    assert!(is_v4_text(&id));
    e.lock();
    assert!(!e.is_unlocked());
    match e.send_message("1".into(), "hi".into()) {
        Err(GuptError::Unauthorized(m)) => assert_eq!(m, "Identity is locked"),
        other => panic!("unexpected {:?}", other),
    }
}

#[test]
fn engine_sample_data_and_calls() {
    let e = GuptEngine::start("1").unwrap();
    let c = e.get_conversations().unwrap();
    assert_eq!(c.len(), 1);
    assert_eq!(c[0].id, "1");
    assert_eq!(c[0].display_name.as_deref(), Some("Alice"));
    assert_eq!(c[0].last_message_at.as_deref(), Some("2026-06-25T10:42:00Z"));
    assert!(e.get_messages("1".into()).unwrap().is_empty());
    let p = e.get_nearby_peers().unwrap();
    assert_eq!(p[0].id, "peer_1");
    assert_eq!(p[0].trust_score_ppm, 800_000);
    let call = e.start_call("+100".into()).unwrap();
    assert_eq!(call.len(), 36);
    assert!(is_v4_text(&call));
    assert!(e.accept_call("s".into()).is_ok());
    assert!(e.reject_call("s".into()).is_ok());
    assert!(e.end_call("s".into()).is_ok());
    assert!(e.mute().is_ok());
    assert!(e.unmute().is_ok());
    assert!(e.toggle_speaker().is_ok());
}

/// Whether `s` is the hyphenated text of a version-4, RFC 4122 UUID.
fn is_v4_text(s: &str) -> bool {
    let b = s.as_bytes();
    b.len() == 36 && b[14] == b'4' && matches!(b[19], b'8' | b'9' | b'a' | b'b')
}
