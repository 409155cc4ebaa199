//! Network connectivity monitoring.

use vstd::prelude::*;
use crate::common::TransportType;

verus! {

/// Errors of network monitoring.
#[derive(Debug)]
pub enum NetworkMonitorError {
    /// Monitoring not available.
    NotAvailable(String),
}

/// Connectivity status of the device.
#[derive(Debug, Clone, Copy, PartialEq, Eq, Structural)]
pub enum ConnectivityStatus {
    Offline,
    Wifi,
    MobileData,
    Ethernet,
}

/// Snapshot of the device's network state.
#[derive(Debug, Clone, Copy, PartialEq, Eq, Structural)]
pub struct NetworkState {
    /// Current connectivity status.
    pub connectivity: ConnectivityStatus,
    /// Whether the internet is reachable.
    pub internet_available: bool,
    /// Whether Bluetooth LE is available.
    pub ble_available: bool,
    /// Whether Wi-Fi Direct is available.
    pub wifi_direct_available: bool,
    /// Current Wi-Fi RSSI, when connected.
    pub wifi_rssi: Option<i16>,
    /// Whether the device is in airplane mode.
    pub airplane_mode: bool,
}

/// The offline state that a monitor starts from.
pub open spec fn offline_state() -> NetworkState {
    NetworkState {
        connectivity: ConnectivityStatus::Offline,
        internet_available: false,
        ble_available: false,
        wifi_direct_available: false,
        wifi_rssi: None,
        airplane_mode: false,
    }
}

/// Whether `transport` can be used in `state`: BLE, Wi-Fi Direct and the
/// relay by their own flags, the mesh over either local radio.
pub open spec fn transport_available_in(state: NetworkState, transport: TransportType) -> bool {
    match transport {
        TransportType::Ble => state.ble_available,
        TransportType::WifiDirect => state.wifi_direct_available,
        TransportType::InternetRelay => state.internet_available,
        TransportType::Mesh => state.ble_available || state.wifi_direct_available,
    }
}

impl Default for NetworkState {
    fn default() -> (s: Self)
        ensures
            s == offline_state(),
    {
        NetworkState {
            connectivity: ConnectivityStatus::Offline,
            internet_available: false,
            ble_available: false,
            wifi_direct_available: false,
            wifi_rssi: None,
            airplane_mode: false,
        }
    }
}

/// Tracks the device's connectivity.
#[derive(Debug)]
pub struct NetworkMonitor {
    state: NetworkState,
}

impl NetworkMonitor {
    /// The network state last reported.
    pub closed spec fn spec_state(&self) -> NetworkState {
        self.state
    }

    /// A monitor in the offline state.
    pub fn new() -> (m: Self)
        ensures
            m.spec_state() == offline_state(),
    {
        NetworkMonitor { state: NetworkState::default() }
    }

    /// The network state last reported.
    pub fn state(&self) -> (s: &NetworkState)
        ensures
            *s == self.spec_state(),
    {
        &self.state
    }

    /// Records a new network state.
    pub fn update_state(&mut self, state: NetworkState)
        ensures
            final(self).spec_state() == state,
    {
        self.state = state;
    }

    /// Whether `transport` can currently be used.
    pub fn is_transport_available(&self, transport: TransportType) -> (b: bool)
        ensures
            b == transport_available_in(self.spec_state(), transport),
    {
        match transport {
            TransportType::Ble => self.state.ble_available,
            TransportType::WifiDirect => self.state.wifi_direct_available,
            TransportType::InternetRelay => self.state.internet_available,
            TransportType::Mesh => self.state.ble_available || self.state.wifi_direct_available,
        }
    }
}

impl Default for NetworkMonitor {
    fn default() -> (m: Self)
        ensures
            m.spec_state() == offline_state(),
    {
        Self::new()
    }
}

/// Law: a fresh monitor offers no transport at all.
pub proof fn lemma_new_monitor_offers_nothing(m: NetworkMonitor, transport: TransportType)
    requires
        m.spec_state() == offline_state(),
    ensures
        !transport_available_in(m.spec_state(), transport),
{
}

/// Law: the mesh is available exactly when one of the local radios is.
pub proof fn lemma_mesh_needs_local_radio(state: NetworkState)
    ensures
        transport_available_in(state, TransportType::Mesh) == (transport_available_in(
            state,
            TransportType::Ble,
        ) || transport_available_in(state, TransportType::WifiDirect)),
{
}

/// Law: each direct transport is available exactly when its own flag says
/// so, whatever the connectivity, signal or airplane mode: the internet
/// relay whenever the internet is, BLE and Wi-Fi Direct whenever their
/// radios are.
pub proof fn lemma_transports_follow_their_flags(state: NetworkState)
    ensures
        transport_available_in(state, TransportType::InternetRelay) == state.internet_available,
        transport_available_in(state, TransportType::Ble) == state.ble_available,
        transport_available_in(state, TransportType::WifiDirect) == state.wifi_direct_available,
        transport_available_in(state, TransportType::Mesh) == (state.ble_available
            || state.wifi_direct_available),
{
}

/// Law: a monitor answers from the state last reported: after
/// `update_state(state)` a transport is offered exactly as its flag in
/// `state` says.
pub proof fn lemma_monitor_reports_last_state(m: NetworkMonitor, state: NetworkState)
    requires
        m.spec_state() == state,
    ensures
        transport_available_in(m.spec_state(), TransportType::InternetRelay) == state.internet_available,
        transport_available_in(m.spec_state(), TransportType::Ble) == state.ble_available,
        transport_available_in(m.spec_state(), TransportType::WifiDirect) == state.wifi_direct_available,
{
    lemma_transports_follow_their_flags(state);
}

} // verus!
