//! Shared identifiers, enums, records and configuration of the platform.

use vstd::prelude::*;
use crate::ident::{is_uuid_v4, new_uuid_v4, uuid_text, uuid_to_string};
use crate::time::{instant_to_rfc3339, rfc3339_of, utc_now_parts};
use crate::text::{append_decimal, decimal_text};

verus! {

// ───────────────────────────── identifiers ─────────────────────────────

/// Unique identifier of a message: the 128-bit value of a UUID.
#[derive(Debug, Clone, Copy, PartialEq, Eq, Hash, Structural)]
pub struct MessageId(pub u128);

impl MessageId {
    /// The 128-bit value of the identifier.
    pub fn as_ref(&self) -> (v: &u128)
        ensures
            *v == self.0,
    {
        &self.0
    }
    /// A new random identifier (a version-4 UUID).
    pub fn new() -> (id: Self)
        ensures
            is_uuid_v4(id.0),
    {
        MessageId(new_uuid_v4())
    }

    /// The hyphenated lowercase text of the identifier.
    pub fn to_string(&self) -> (s: String)
        ensures
            s@ == uuid_text(self.0),
    {
        uuid_to_string(self.0)
    }
}

impl From<u128> for MessageId {
    fn from(v: u128) -> (id: Self) {
        MessageId(v)
    }
}

impl vstd::std_specs::convert::FromSpecImpl<u128> for MessageId {
    open spec fn obeys_from_spec() -> bool {
        true
    }

    open spec fn from_spec(v: u128) -> Self {
        MessageId(v)
    }
}

/// Unique identifier of a conversation: the 128-bit value of a UUID.
#[derive(Debug, Clone, Copy, PartialEq, Eq, Hash, Structural)]
pub struct ConversationId(pub u128);

impl ConversationId {
    /// The 128-bit value of the identifier.
    pub fn as_ref(&self) -> (v: &u128)
        ensures
            *v == self.0,
    {
        &self.0
    }
    /// A new random identifier (a version-4 UUID).
    pub fn new() -> (id: Self)
        ensures
            is_uuid_v4(id.0),
    {
        ConversationId(new_uuid_v4())
    }

    /// The hyphenated lowercase text of the identifier.
    pub fn to_string(&self) -> (s: String)
        ensures
            s@ == uuid_text(self.0),
    {
        uuid_to_string(self.0)
    }
}

impl From<u128> for ConversationId {
    fn from(v: u128) -> (id: Self) {
        ConversationId(v)
    }
}

impl vstd::std_specs::convert::FromSpecImpl<u128> for ConversationId {
    open spec fn obeys_from_spec() -> bool {
        true
    }

    open spec fn from_spec(v: u128) -> Self {
        ConversationId(v)
    }
}

/// Unique identifier of a user.
#[derive(Debug, PartialEq, Eq, Hash)]
pub struct UserId(pub String);

/// Unique identifier of a device.
#[derive(Debug, PartialEq, Eq, Hash)]
pub struct DeviceId(pub String);

/// Unique identifier of a peer of the mesh network.
#[derive(Debug, PartialEq, Eq, Hash)]
pub struct PeerId(pub String);

impl Clone for UserId {
    fn clone(&self) -> (c: Self)
        ensures
            c@ == self@,
    {
        UserId(self.0.clone())
    }
}

impl Clone for DeviceId {
    fn clone(&self) -> (c: Self)
        ensures
            c@ == self@,
    {
        DeviceId(self.0.clone())
    }
}

impl Clone for PeerId {
    fn clone(&self) -> (c: Self)
        ensures
            c@ == self@,
    {
        PeerId(self.0.clone())
    }
}

impl View for UserId {
    type V = Seq<char>;

    open spec fn view(&self) -> Seq<char> {
        self.0@
    }
}

impl View for DeviceId {
    type V = Seq<char>;

    open spec fn view(&self) -> Seq<char> {
        self.0@
    }
}

impl View for PeerId {
    type V = Seq<char>;

    open spec fn view(&self) -> Seq<char> {
        self.0@
    }
}

impl UserId {
    /// The text of the identifier.
    pub fn as_ref(&self) -> (v: &str)
        ensures
            v@ == self@,
    {
        self.0.as_str()
    }

    /// The text of the identifier, owned.
    pub fn to_string(&self) -> (s: String)
        ensures
            s@ == self@,
    {
        self.0.clone()
    }
    /// Builds an identifier from its text.
    pub fn from_str(v: &str) -> (id: Self)
        ensures
            id@ == v@,
    {
        UserId(v.to_owned())
    }

    /// Whether two identifiers have the same text.
    pub fn same_as(&self, other: &UserId) -> (b: bool)
        ensures
            b == (self@ == other@),
    {
        self.0 == other.0
    }
}

impl DeviceId {
    /// The text of the identifier.
    pub fn as_ref(&self) -> (v: &str)
        ensures
            v@ == self@,
    {
        self.0.as_str()
    }

    /// The text of the identifier, owned.
    pub fn to_string(&self) -> (s: String)
        ensures
            s@ == self@,
    {
        self.0.clone()
    }
    /// Builds an identifier from its text.
    pub fn from_str(v: &str) -> (id: Self)
        ensures
            id@ == v@,
    {
        DeviceId(v.to_owned())
    }
}

impl PeerId {
    /// The text of the identifier.
    pub fn as_ref(&self) -> (v: &str)
        ensures
            v@ == self@,
    {
        self.0.as_str()
    }

    /// The text of the identifier, owned.
    pub fn to_string(&self) -> (s: String)
        ensures
            s@ == self@,
    {
        self.0.clone()
    }
    /// Builds an identifier from its text.
    pub fn from_str(v: &str) -> (id: Self)
        ensures
            id@ == v@,
    {
        PeerId(v.to_owned())
    }

    /// Whether two identifiers have the same text.
    pub fn same_as(&self, other: &PeerId) -> (b: bool)
        ensures
            b == (self@ == other@),
    {
        self.0 == other.0
    }
}

impl From<String> for UserId {
    fn from(v: String) -> (id: Self) {
        UserId(v)
    }
}

impl vstd::std_specs::convert::FromSpecImpl<String> for UserId {
    open spec fn obeys_from_spec() -> bool {
        true
    }

    open spec fn from_spec(v: String) -> Self {
        UserId(v)
    }
}

impl From<String> for DeviceId {
    fn from(v: String) -> (id: Self) {
        DeviceId(v)
    }
}

impl vstd::std_specs::convert::FromSpecImpl<String> for DeviceId {
    open spec fn obeys_from_spec() -> bool {
        true
    }

    open spec fn from_spec(v: String) -> Self {
        DeviceId(v)
    }
}

impl From<String> for PeerId {
    fn from(v: String) -> (id: Self) {
        PeerId(v)
    }
}

impl vstd::std_specs::convert::FromSpecImpl<String> for PeerId {
    open spec fn obeys_from_spec() -> bool {
        true
    }

    open spec fn from_spec(v: String) -> Self {
        PeerId(v)
    }
}

/// A UTC instant, in nanoseconds since the Unix epoch.
#[derive(Debug, Clone, Copy, PartialEq, Eq, PartialOrd, Ord, Hash, Structural)]
pub struct Timestamp(pub i128);

/// Nanoseconds in a second.
pub const NANOS_PER_SECOND: i128 = 1_000_000_000;

/// The earliest instant that `chrono` represents, -262143-01-01T00:00:00Z,
/// in nanoseconds since the Unix epoch.
pub const EARLIEST_INSTANT_NS: i128 = -8_334_601_315_200_000_000_000;

/// The whole seconds elapsed from `earlier` to `later`, truncated toward
/// zero (negative when `later` precedes `earlier`).
pub open spec fn whole_seconds_between(earlier: Timestamp, later: Timestamp) -> int {
    let d = later.0 - earlier.0;
    if d >= 0 {
        d / 1_000_000_000
    } else {
        -((-d) / 1_000_000_000)
    }
}

/// The RFC 3339 text of an instant, as `chrono` writes it: its whole
/// seconds (rounded down) and the nanoseconds past them; nothing where the
/// seconds do not fit `chrono`'s signed 64-bit count or `chrono` refuses
/// the instant.
pub open spec fn rfc3339_of_instant(t: Timestamp) -> Option<Seq<char>> {
    let secs = t.0 / 1_000_000_000;
    if i64::MIN <= secs <= i64::MAX {
        rfc3339_of(secs as i64, (t.0 % 1_000_000_000) as u32)
    } else {
        None
    }
}

/// The distance from `lo` up to `hi`, which may exceed the signed range.
fn distance(lo: i128, hi: i128) -> (d: u128)
    requires
        lo <= hi,
    ensures
        d == hi - lo,
{
    if lo >= 0 || hi < 0 {
        (hi - lo) as u128
    } else {
        let below: i128 = -(lo + 1);
        (hi as u128) + (below as u128) + 1
    }
}

impl Timestamp {
    /// The nanoseconds since the Unix epoch.
    pub fn as_ref(&self) -> (v: &i128)
        ensures
            *v == self.0,
    {
        &self.0
    }

    /// The instant in RFC 3339 form, as `chrono` writes it; nothing where
    /// `chrono` cannot represent the instant.
    pub fn to_rfc3339(&self) -> (r: Option<String>)
        ensures
            r matches Some(s) ==> rfc3339_of_instant(*self) == Some(s@),
            r is None ==> rfc3339_of_instant(*self) is None,
    {
        let t = self.0;
        let (secs, nanos): (i128, i128) = if t >= 0 {
            (t / NANOS_PER_SECOND, t % NANOS_PER_SECOND)
        } else {
            let p: i128 = -(t + 1);
            let q: i128 = -(p / NANOS_PER_SECOND) - 1;
            let r: i128 = NANOS_PER_SECOND - 1 - p % NANOS_PER_SECOND;
            assert(t == q * 1_000_000_000 + r) by (nonlinear_arith)
                requires
                    p == -(t + 1),
                    p >= 0,
                    q == -(p / 1_000_000_000) - 1,
                    r == 1_000_000_000 - 1 - p % 1_000_000_000,
            {
                assert(p == (p / 1_000_000_000) * 1_000_000_000 + p % 1_000_000_000);
            }
            (q, r)
        };
        proof {
            vstd::arithmetic::div_mod::lemma_fundamental_div_mod_converse(
                t as int,
                1_000_000_000,
                secs as int,
                nanos as int,
            );
        }
        if secs < i64::MIN as i128 || secs > i64::MAX as i128 {
            return None;
        }
        instant_to_rfc3339(secs as i64, nanos as u32)
    }

    /// The current UTC time, read from the system clock: never before the
    /// Unix epoch, and an instant that `chrono` can write.
    pub fn now() -> (t: Self)
        ensures
            t.0 >= 0,
            rfc3339_of_instant(t) is Some,
    {
        let (secs, nanos) = utc_now_parts();
        let t = Timestamp(secs as i128 * NANOS_PER_SECOND + nanos as i128);
        proof {
            vstd::arithmetic::div_mod::lemma_fundamental_div_mod_converse(
                t.0 as int,
                1_000_000_000,
                secs as int,
                nanos as int,
            );
        }
        t
    }

    /// The whole seconds elapsed from `self` to `later`, truncated toward
    /// zero.
    pub fn seconds_until(&self, later: &Timestamp) -> (s: i128)
        ensures
            s == whole_seconds_between(*self, *later),
    {
        if later.0 >= self.0 {
            let d = distance(self.0, later.0);
            (d / 1_000_000_000) as i128
        } else {
            let d = distance(later.0, self.0);
            -((d / 1_000_000_000) as i128)
        }
    }
}

impl From<i128> for Timestamp {
    fn from(v: i128) -> (t: Self) {
        Timestamp(v)
    }
}

impl vstd::std_specs::convert::FromSpecImpl<i128> for Timestamp {
    open spec fn obeys_from_spec() -> bool {
        true
    }

    open spec fn from_spec(v: i128) -> Self {
        Timestamp(v)
    }
}

/// Throughput, in bytes per second.
#[derive(Debug, Clone, Copy, PartialEq, Eq, Hash, Structural)]
pub struct BytesPerSecond(pub u64);

impl BytesPerSecond {
    /// The rate as a number.
    pub fn as_ref(&self) -> (v: &u64)
        ensures
            *v == self.0,
    {
        &self.0
    }

    /// The rate followed by ` B/s`, e.g. `1500 B/s`.
    pub fn to_string(&self) -> (s: String)
        ensures
            s@ == decimal_text(self.0 as nat) + " B/s"@,
    {
        let mut s = String::new();
        append_decimal(&mut s, self.0);
        s.append(" B/s");
        s
    }
}

impl From<u64> for BytesPerSecond {
    fn from(v: u64) -> (b: Self) {
        BytesPerSecond(v)
    }
}

impl vstd::std_specs::convert::FromSpecImpl<u64> for BytesPerSecond {
    open spec fn obeys_from_spec() -> bool {
        true
    }

    open spec fn from_spec(v: u64) -> Self {
        BytesPerSecond(v)
    }
}

// ───────────────────────────── enums ─────────────────────────────

/// The content type of a message.
#[derive(Debug, Clone, Copy, PartialEq, Eq, Hash, Structural)]
pub enum MessageType {
    Text,
    Image,
    File,
    Audio,
    Video,
    Location,
}

/// Delivery lifecycle of a message.
#[derive(Debug, Clone, Copy, PartialEq, Eq, Hash, Structural)]
pub enum DeliveryStatus {
    Pending,
    Sent,
    Delivered,
    Read,
    Failed,
    Expired,
}

/// The transport mechanisms a message can travel over.
#[derive(Debug, Clone, Copy, PartialEq, Eq, Hash, Structural)]
pub enum TransportType {
    /// Bluetooth Low Energy.
    Ble,
    /// Wi-Fi Direct / P2P.
    WifiDirect,
    /// Cloud relay over the internet.
    InternetRelay,
    /// Multi-hop mesh forwarding.
    Mesh,
}

/// State of a transport connection.
#[derive(Debug, Clone, Copy, PartialEq, Eq, Hash, Structural)]
pub enum ConnectionState {
    Disconnected,
    Connecting,
    Connected,
    Disconnecting,
}

/// Estimated battery cost of a transport operation.
#[derive(Debug, Clone, Copy, PartialEq, Eq, Hash, Structural)]
pub enum BatteryCost {
    VeryLow,
    Low,
    Medium,
    High,
    VeryHigh,
}

/// Device motion classification.
#[derive(Debug, Clone, Copy, PartialEq, Eq, Hash, Structural)]
pub enum DeviceMotion {
    Stationary,
    Moving,
    Unknown,
}

// ───────────────────────────── records ─────────────────────────────

/// Radio signal quality measurement.
#[derive(Debug, Clone, Copy, PartialEq, Eq, Structural)]
pub struct SignalQuality {
    /// Received Signal Strength Indicator (dBm).
    pub rssi: i16,
    /// Normalised quality percentage (0–100).
    pub quality_percent: u8,
}

/// Current state of the device battery.
#[derive(Debug, Clone, Copy, PartialEq, Eq, Structural)]
pub struct BatteryState {
    /// Battery level as a percentage (0–100).
    pub level_percent: u8,
    /// Whether the device is currently charging.
    pub is_charging: bool,
    /// Whether battery-saver mode is enabled.
    pub is_saver_mode: bool,
}

impl Default for BatteryState {
    fn default() -> (s: Self)
        ensures
            s == (BatteryState { level_percent: 0, is_charging: false, is_saver_mode: false }),
    {
        BatteryState { level_percent: 0, is_charging: false, is_saver_mode: false }
    }
}

/// An encrypted message ready for transport.
#[derive(Debug)]
pub struct MessageEnvelope {
    pub id: MessageId,
    pub sender: UserId,
    pub recipient: UserId,
    pub conversation_id: ConversationId,
    pub message_type: MessageType,
    /// Encrypted message payload bytes.
    pub encrypted_payload: Vec<u8>,
    /// Signature over the envelope.
    pub signature: Vec<u8>,
    /// Nonce used during encryption.
    pub nonce: Vec<u8>,
    /// Time-to-live in seconds before the message expires.
    pub ttl_seconds: u32,
    /// Number of hops this envelope has already traversed.
    pub hop_count: u8,
    /// Maximum number of hops allowed.
    pub max_hops: u8,
    /// When the message was created.
    pub timestamp: Timestamp,
    pub delivery_status: DeliveryStatus,
}

/// The factors that a transport was scored on, each a fraction in parts
/// per million (1_000_000 stands for 1.0); absent factors were not rated.
#[derive(Debug, Clone, Copy, PartialEq, Eq, Structural)]
pub struct TransportFactors {
    pub proximity: Option<u32>,
    pub battery_cost: Option<u32>,
    pub privacy: Option<u32>,
    pub throughput_match: Option<u32>,
    pub availability: Option<u32>,
    pub trust: Option<u32>,
}

/// Scored transport option for the routing engine.
#[derive(Debug, Clone, Copy, PartialEq, Eq, Structural)]
pub struct TransportScore {
    /// The transport being scored.
    pub transport_type: TransportType,
    /// Composite score, in units of 10^-12 (the sum of factor times weight,
    /// both in parts per million); higher is better.
    pub score: u128,
    /// The individual factors.
    pub factors: TransportFactors,
}

// ───────────────────────────── configuration ─────────────────────────────

/// Application-wide configuration.
#[derive(Debug)]
pub struct GuptConfig {
    /// Path to the local database file.
    pub db_path: String,
    /// Maximum number of hops a message may traverse in the mesh.
    pub max_hops: u8,
    /// Default time-to-live for messages (seconds).
    pub default_ttl_seconds: u32,
    /// Scan interval while the device is moving (ms).
    pub scan_interval_moving_ms: u64,
    /// Scan interval while the device is stationary (ms).
    pub scan_interval_stationary_ms: u64,
    /// Whether to prefer local (BLE / Wi-Fi Direct) connections.
    pub prefer_local_connections: bool,
    /// Whether to allow mobile data for relay traffic.
    pub allow_mobile_data: bool,
    /// Whether mesh forwarding is enabled.
    pub mesh_enabled: bool,
    /// Maximum number of concurrent file transfers.
    pub max_concurrent_transfers: usize,
}

impl Default for GuptConfig {
    fn default() -> (c: Self)
        ensures
            c.db_path@ == "gupt.db"@,
            c.max_hops == 5,
            c.default_ttl_seconds == 86_400,
            c.scan_interval_moving_ms == 15_000,
            c.scan_interval_stationary_ms == 300_000,
            c.prefer_local_connections,
            !c.allow_mobile_data,
            c.mesh_enabled,
            c.max_concurrent_transfers == 3,
    {
        GuptConfig {
            db_path: "gupt.db".to_owned(),
            max_hops: 5,
            default_ttl_seconds: 86_400,
            scan_interval_moving_ms: 15_000,
            scan_interval_stationary_ms: 300_000,
            prefer_local_connections: true,
            allow_mobile_data: false,
            mesh_enabled: true,
            max_concurrent_transfers: 3,
        }
    }
}

// ───────────────────────────── errors ─────────────────────────────

/// Top-level error type shared by the platform's components.
#[derive(Debug)]
pub enum GuptError {
    Crypto(String),
    Storage(String),
    Transport(String),
    Identity(String),
    Network(String),
    Serialization(String),
    InvalidInput(String),
    NotFound(String),
    Unauthorized(String),
    Internal(String),
}

impl GuptError {
    /// The error's text.
    pub open spec fn describe(&self) -> Seq<char> {
        match self {
            GuptError::Crypto(m) => "crypto error: "@ + m@,
            GuptError::Storage(m) => "storage error: "@ + m@,
            GuptError::Transport(m) => "transport error: "@ + m@,
            GuptError::Identity(m) => "identity error: "@ + m@,
            GuptError::Network(m) => "network error: "@ + m@,
            GuptError::Serialization(m) => "serialization error: "@ + m@,
            GuptError::InvalidInput(m) => "invalid input: "@ + m@,
            GuptError::NotFound(m) => "not found: "@ + m@,
            GuptError::Unauthorized(m) => "unauthorized: "@ + m@,
            GuptError::Internal(m) => "internal error: "@ + m@,
        }
    }

    /// The error's text.
    pub fn message(&self) -> (s: String)
        ensures
            s@ == self.describe(),
    {
        match self {
            GuptError::Crypto(m) => String::from_str("crypto error: ").concat(m.as_str()),
            GuptError::Storage(m) => String::from_str("storage error: ").concat(m.as_str()),
            GuptError::Transport(m) => String::from_str("transport error: ").concat(m.as_str()),
            GuptError::Identity(m) => String::from_str("identity error: ").concat(m.as_str()),
            GuptError::Network(m) => String::from_str("network error: ").concat(m.as_str()),
            GuptError::Serialization(m) => String::from_str("serialization error: ").concat(m.as_str()),
            GuptError::InvalidInput(m) => String::from_str("invalid input: ").concat(m.as_str()),
            GuptError::NotFound(m) => String::from_str("not found: ").concat(m.as_str()),
            GuptError::Unauthorized(m) => String::from_str("unauthorized: ").concat(m.as_str()),
            GuptError::Internal(m) => String::from_str("internal error: ").concat(m.as_str()),
        }
    }
}

} // verus!
