use gupt::common::{
    BytesPerSecond, ConversationId, DeviceId, GuptConfig, GuptError, MessageId, PeerId, Timestamp,
    UserId,
};

#[test]
fn message_id_prints_as_hyphenated_uuid() {
    let id = MessageId(0x67e5_5044_10b1_426f_9247_bb68_0e5f_e0c8);
    assert_eq!(id.to_string(), "67e55044-10b1-426f-9247-bb680e5fe0c8");
    assert_eq!(*id.as_ref(), 0x67e5_5044_10b1_426f_9247_bb68_0e5f_e0c8);
}

#[test]
fn new_message_ids_are_version_four_and_distinct() {
    let a = MessageId::new();
    let b = MessageId::new();
    assert_ne!(a, b);
    let text = a.to_string();
    assert_eq!(text.len(), 36);
    assert_eq!(&text[14..15], "4");
    let c = ConversationId::new();
    assert_eq!(c.to_string().len(), 36);
}

#[test]
fn string_ids_keep_their_text() {
    let u = UserId::from_str("alice");
    assert_eq!(u.as_ref(), "alice");
    assert_eq!(u.to_string(), "alice");
    assert!(u.same_as(&UserId::from("alice".to_string())));
    assert!(!u.same_as(&UserId::from_str("bob")));
    let d = DeviceId::from_str("pixel");
    assert_eq!(d.to_string(), "pixel");
    let p = PeerId::from_str("peer_1");
    assert!(p.same_as(&p.clone()));
}

#[test]
fn seconds_until_truncates_toward_zero() {
    let t0 = ms(1_000);
    assert_eq!(t0.seconds_until(&ms(3_999)), 2);
    assert_eq!(t0.seconds_until(&ms(1_000)), 0);
    assert_eq!(t0.seconds_until(&ms(-1_500)), -2);
    assert_eq!(ms(i64::MIN).seconds_until(&ms(i64::MAX)), 18_446_744_073_709_551);
    assert_eq!(Timestamp(0).seconds_until(&Timestamp(999_999_999)), 0);
    assert_eq!(Timestamp(0).seconds_until(&Timestamp(1_000_000_000)), 1);
    assert_eq!(Timestamp(0).seconds_until(&Timestamp(-1_999_999_999)), -1);
    assert_eq!(Timestamp(i128::MIN).seconds_until(&Timestamp(i128::MAX)), 340_282_366_920_938_463_463_374_607_431);
    assert_eq!(Timestamp(i128::MAX).seconds_until(&Timestamp(i128::MIN)), -340_282_366_920_938_463_463_374_607_431);
}

#[test]
fn timestamp_prints_in_rfc3339() {
    assert_eq!(Timestamp(0).to_rfc3339().unwrap(), "1970-01-01T00:00:00+00:00");
    assert_eq!(ms(1_500).to_rfc3339().unwrap(), "1970-01-01T00:00:01.500+00:00");
    assert_eq!(Timestamp(1_000_000_001).to_rfc3339().unwrap(), "1970-01-01T00:00:01.000000001+00:00");
    assert_eq!(Timestamp(-1).to_rfc3339().unwrap(), "1969-12-31T23:59:59.999999999+00:00");
    assert_eq!(ms(-1_500).to_rfc3339().unwrap(), "1969-12-31T23:59:58.500+00:00");
    assert!(ms(i64::MAX).to_rfc3339().is_none());
    assert!(Timestamp(i128::MAX).to_rfc3339().is_none());
    assert!(Timestamp(i128::MIN).to_rfc3339().is_none());
    assert_eq!(*Timestamp(42).as_ref(), 42);
}

#[test]
fn clock_reads_after_the_epoch() {
    assert!(Timestamp::now().0 > 1_600_000_000 * 1_000_000_000);
}

#[test]
fn bytes_per_second_prints_with_unit() {
    assert_eq!(BytesPerSecond(0).to_string(), "0 B/s");
    assert_eq!(BytesPerSecond(1500).to_string(), "1500 B/s");
    assert_eq!(BytesPerSecond(u64::MAX).to_string(), "18446744073709551615 B/s");
    assert_eq!(*BytesPerSecond::from(7).as_ref(), 7);
}

#[test]
fn default_config_values() {
    let c = GuptConfig::default();
    assert_eq!(c.db_path, "gupt.db");
    assert_eq!(c.max_hops, 5);
    assert_eq!(c.default_ttl_seconds, 86_400);
    assert_eq!(c.scan_interval_moving_ms, 15_000);
    assert_eq!(c.scan_interval_stationary_ms, 300_000);
    assert!(c.prefer_local_connections);
    assert!(!c.allow_mobile_data);
    assert!(c.mesh_enabled);
    assert_eq!(c.max_concurrent_transfers, 3);
}

#[test]
fn error_texts() {
    assert_eq!(GuptError::Crypto("x".into()).message(), "crypto error: x");
    assert_eq!(GuptError::NotFound("peer".into()).message(), "not found: peer");
    assert_eq!(GuptError::Internal("boom".into()).message(), "internal error: boom");
    assert_eq!(GuptError::InvalidInput("n".into()).message(), "invalid input: n");
}

#[test]
fn new_ids_carry_version_and_variant_bits() {
    for _ in 0..64 {
        let m = MessageId::new().0;
        assert_eq!((m >> 76) & 0xF, 4);
        assert_eq!((m >> 62) & 0x3, 2);
        let c = ConversationId::new().0;
        assert_eq!((c >> 76) & 0xF, 4);
        assert_eq!((c >> 62) & 0x3, 2);
    }
}

#[test]
fn the_current_instant_can_be_written() {
    let t = Timestamp::now();
    assert!(t.0 >= 0);
    assert!(t.to_rfc3339().is_some());
}

/// The instant `x` milliseconds after the Unix epoch.
fn ms(x: i64) -> Timestamp {
    Timestamp(x as i128 * 1_000_000)
}
