use gupt::common::{BatteryState, PeerId, TransportType};
use gupt::network_monitor::{ConnectivityStatus, NetworkState};
use gupt::routing::{
    MessagePriority, RoutingContext, RoutingEngine, RoutingError, RoutingWeight,
    UserRoutingPreferences,
};

fn context(transports: Vec<TransportType>, rssi: Option<i16>, payload: usize) -> RoutingContext {
    RoutingContext {
        target_peer: PeerId::from_str("peer"),
        payload_size: payload,
        message_priority: MessagePriority::Normal,
        battery_state: BatteryState { level_percent: 80, is_charging: false, is_saver_mode: false },
        network_state: NetworkState {
            connectivity: ConnectivityStatus::Wifi,
            internet_available: true,
            ble_available: true,
            wifi_direct_available: true,
            wifi_rssi: Some(-50),
            airplane_mode: false,
        },
        available_transports: transports,
        peer_rssi: rssi,
        peer_trust_score: 500_000,
        user_preferences: UserRoutingPreferences::default(),
    }
}

#[test]
fn default_weights() {
    let w = RoutingWeight::default();
    assert_eq!(w.proximity, 150_000);
    assert_eq!(w.signal_quality, 120_000);
    assert_eq!(w.latency, 150_000);
    assert_eq!(w.throughput_match, 100_000);
    assert_eq!(w.battery_cost, 120_000);
    assert_eq!(w.reliability, 100_000);
    assert_eq!(w.privacy, 100_000);
    assert_eq!(w.congestion, 80_000);
    assert_eq!(w.trust, 80_000);
}

#[test]
fn ble_score_for_a_close_peer() {
    let e = RoutingEngine::new(RoutingWeight::default());
    let ctx = context(vec![TransportType::Ble], Some(-50), 10);
    let s = e.score_transport(TransportType::Ble, &ctx);
    // 1.0*0.15 + 1.0*0.12 + 1.0*0.10 + 0.8*0.10 = 0.45
    assert_eq!(s.score, 450_000_000_000);
    assert_eq!(s.factors.proximity, Some(1_000_000));
    assert_eq!(s.factors.throughput_match, Some(800_000));
}

#[test]
fn relay_score_over_wifi() {
    let e = RoutingEngine::new(RoutingWeight::default());
    let ctx = context(vec![TransportType::InternetRelay], None, 10);
    let s = e.score_transport(TransportType::InternetRelay, &ctx);
    // 0*0.15 + 0.7*0.12 + 0.3*0.10 + 1.0*0.10 + 1.0*0.10 = 0.314
    assert_eq!(s.score, 314_000_000_000);
}

#[test]
fn mesh_score_uses_trust() {
    let e = RoutingEngine::new(RoutingWeight::default());
    let ctx = context(vec![TransportType::Mesh], None, 10);
    let s = e.score_transport(TransportType::Mesh, &ctx);
    // 0.8*0.10 + 0.8*0.10 + 0.5*0.08 = 0.2
    assert_eq!(s.score, 200_000_000_000);
    assert_eq!(s.factors.trust, Some(500_000));
}

#[test]
fn no_transport_is_an_error() {
    let e = RoutingEngine::new(RoutingWeight::default());
    let r = e.select_route(&context(vec![], None, 10));
    assert!(matches!(r, Err(RoutingError::NoTransportAvailable)));
}

#[test]
fn best_transport_is_primary_and_runner_up_falls_back() {
    let e = RoutingEngine::new(RoutingWeight::default());
    let ctx = context(
        vec![TransportType::Mesh, TransportType::InternetRelay, TransportType::Ble, TransportType::WifiDirect],
        Some(-50),
        10,
    );
    let d = e.select_route(&ctx).unwrap();
    // Wi-Fi Direct: 0.8*0.15 + 0.5*0.12 + 1.0*0.10 + 1.0*0.10 = 0.38; BLE 0.45
    assert_eq!(d.primary_transport, TransportType::Ble);
    assert_eq!(d.fallback_transports, vec![TransportType::WifiDirect]);
    assert_eq!(d.scores.len(), 4);
    let order: Vec<TransportType> = d.scores.iter().map(|s| s.transport_type).collect();
    assert_eq!(order, vec![TransportType::Ble, TransportType::WifiDirect, TransportType::InternetRelay, TransportType::Mesh]);
    // 0.38 is not within 15 % of 0.45
    assert!(!d.use_multipath);
}

#[test]
fn close_scores_go_multipath_and_ties_keep_order() {
    let e = RoutingEngine::new(RoutingWeight::default());
    let ctx = context(vec![TransportType::WifiDirect, TransportType::Ble], Some(-70), 10);
    // BLE with a mid-range peer: 0.5*0.15 + 0.12 + 0.10 + 0.08 = 0.375; Wi-Fi Direct 0.38
    let d = e.select_route(&ctx).unwrap();
    assert_eq!(d.primary_transport, TransportType::WifiDirect);
    assert!(d.use_multipath);
    let tie = context(vec![TransportType::Ble, TransportType::Ble], Some(-50), 10);
    let d2 = e.select_route(&tie).unwrap();
    assert_eq!(d2.scores[0].score, d2.scores[1].score);
    assert!(d2.use_multipath);
}

#[test]
fn single_transport_has_no_fallback() {
    let e = RoutingEngine::new(RoutingWeight::default());
    let d = e.select_route(&context(vec![TransportType::Mesh], None, 10)).unwrap();
    assert_eq!(d.primary_transport, TransportType::Mesh);
    assert!(d.fallback_transports.is_empty());
    assert!(!d.use_multipath);
}

#[test]
fn normalize_clamps_and_handles_empty_scale() {
    assert_eq!(RoutingEngine::normalize(5, 0, 10), 500_000);
    assert_eq!(RoutingEngine::normalize(-5, 0, 10), 0);
    assert_eq!(RoutingEngine::normalize(50, 0, 10), 1_000_000);
    assert_eq!(RoutingEngine::normalize(3, 3, 3), 0);
    assert_eq!(RoutingEngine::normalize(-70, -100, -40), 500_000);
    assert_eq!(RoutingEngine::normalize(5, 10, 0), 500_000);
}
