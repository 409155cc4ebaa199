use gupt::battery::{BatteryMonitor, PowerProfile};
use gupt::common::{BatteryState, TransportType};
use gupt::network_monitor::{ConnectivityStatus, NetworkMonitor, NetworkState};

fn battery(level: u8, charging: bool, saver: bool) -> BatteryState {
    BatteryState { level_percent: level, is_charging: charging, is_saver_mode: saver }
}

#[test]
fn profile_thresholds() {
    assert_eq!(BatteryMonitor::compute_profile(&battery(5, true, true)), PowerProfile::Performance);
    assert_eq!(BatteryMonitor::compute_profile(&battery(80, false, true)), PowerProfile::Critical);
    assert_eq!(BatteryMonitor::compute_profile(&battery(9, false, false)), PowerProfile::Critical);
    assert_eq!(BatteryMonitor::compute_profile(&battery(10, false, false)), PowerProfile::PowerSaver);
    assert_eq!(BatteryMonitor::compute_profile(&battery(19, false, false)), PowerProfile::PowerSaver);
    assert_eq!(BatteryMonitor::compute_profile(&battery(20, false, false)), PowerProfile::Balanced);
    assert_eq!(BatteryMonitor::compute_profile(&battery(49, false, false)), PowerProfile::Balanced);
    assert_eq!(BatteryMonitor::compute_profile(&battery(50, false, false)), PowerProfile::Performance);
}

#[test]
fn monitor_starts_balanced_and_follows_updates() {
    let mut m = BatteryMonitor::new();
    assert_eq!(m.profile(), PowerProfile::Balanced);
    assert_eq!(*m.state(), battery(0, false, false));
    m.update_state(battery(3, false, false));
    assert_eq!(m.profile(), PowerProfile::Critical);
    m.update_state(battery(3, true, false));
    assert_eq!(m.profile(), PowerProfile::Performance);
    assert_eq!(BatteryMonitor::default().profile(), PowerProfile::Balanced);
}

#[test]
fn fresh_network_monitor_offers_nothing() {
    let m = NetworkMonitor::new();
    for t in [TransportType::Ble, TransportType::WifiDirect, TransportType::InternetRelay, TransportType::Mesh] {
        assert!(!m.is_transport_available(t));
    }
    assert_eq!(*m.state(), NetworkState::default());
}

#[test]
fn mesh_rides_on_a_local_radio() {
    let mut m = NetworkMonitor::default();
    let mut s = NetworkState::default();
    s.wifi_direct_available = true;
    m.update_state(s);
    assert!(m.is_transport_available(TransportType::Mesh));
    assert!(m.is_transport_available(TransportType::WifiDirect));
    assert!(!m.is_transport_available(TransportType::Ble));
    s.wifi_direct_available = false;
    s.internet_available = true;
    s.connectivity = ConnectivityStatus::Wifi;
    m.update_state(s);
    assert!(!m.is_transport_available(TransportType::Mesh));
    assert!(m.is_transport_available(TransportType::InternetRelay));
}
