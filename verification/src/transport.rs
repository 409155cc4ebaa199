//! Transports: their errors and events, and the choices a transport
//! manager makes over the transports registered with it.

use vstd::prelude::*;
use crate::common::{MessageId, PeerId, Timestamp, TransportType};
use crate::text::{append_decimal, decimal_text};

verus! {

/// The name of a transport kind, as its `Debug` form writes it.
pub open spec fn transport_name(t: TransportType) -> Seq<char> {
    match t {
        TransportType::Ble => "Ble"@,
        TransportType::WifiDirect => "WifiDirect"@,
        TransportType::InternetRelay => "InternetRelay"@,
        TransportType::Mesh => "Mesh"@,
    }
}

/// The name of a transport kind.
pub fn transport_name_str(t: TransportType) -> (s: &'static str)
    ensures
        s@ == transport_name(t),
{
    match t {
        TransportType::Ble => "Ble",
        TransportType::WifiDirect => "WifiDirect",
        TransportType::InternetRelay => "InternetRelay",
        TransportType::Mesh => "Mesh",
    }
}

/// Errors of transports.
#[derive(Debug)]
pub enum TransportError {
    NotAvailable(TransportType),
    SendFailed(String),
    ReceiveFailed(String),
    ConnectionFailed(String),
    Timeout,
    NotConnected,
    PayloadTooLarge { size: usize, max: usize },
}

impl TransportError {
    /// The error's text.
    pub open spec fn describe(&self) -> Seq<char> {
        match self {
            TransportError::NotAvailable(t) => "Transport "@ + transport_name(*t) + " is not available"@,
            TransportError::SendFailed(m) => "Failed to send message: "@ + m@,
            TransportError::ReceiveFailed(m) => "Failed to receive message: "@ + m@,
            TransportError::ConnectionFailed(m) => "Connection failed: "@ + m@,
            TransportError::Timeout => "Operation timed out"@,
            TransportError::NotConnected => "Not connected to peer"@,
            TransportError::PayloadTooLarge { size, max } => "Payload too large: "@ + decimal_text(
                *size as nat,
            ) + " > "@ + decimal_text(*max as nat),
        }
    }

    /// The error's text.
    pub fn message(&self) -> (s: String)
        ensures
            s@ == self.describe(),
    {
        match self {
            TransportError::NotAvailable(t) => String::from_str("Transport ").concat(
                transport_name_str(*t),
            ).concat(" is not available"),
            TransportError::SendFailed(m) => String::from_str("Failed to send message: ").concat(
                m.as_str(),
            ),
            TransportError::ReceiveFailed(m) => String::from_str("Failed to receive message: ").concat(
                m.as_str(),
            ),
            TransportError::ConnectionFailed(m) => String::from_str("Connection failed: ").concat(
                m.as_str(),
            ),
            TransportError::Timeout => String::from_str("Operation timed out"),
            TransportError::NotConnected => String::from_str("Not connected to peer"),
            TransportError::PayloadTooLarge { size, max } => {
                let mut s = String::from_str("Payload too large: ");
                append_decimal(&mut s, *size as u64);
                s.append(" > ");
                append_decimal(&mut s, *max as u64);
                s
            },
        }
    }
}

/// Proof that a message was delivered.
#[derive(Debug, Clone, Copy)]
pub struct DeliveryReceipt {
    pub message_id: MessageId,
    pub transport_used: TransportType,
    pub delivered_at: Timestamp,
    pub hops: u8,
}

/// Data received from a peer.
#[derive(Debug)]
pub struct IncomingPacket {
    pub data: Vec<u8>,
    pub sender: PeerId,
    pub transport_type: TransportType,
    pub received_at: Timestamp,
    pub rssi: Option<i16>,
}

/// What a transport reports.
#[derive(Debug)]
pub enum TransportEvent {
    PeerDiscovered { peer: PeerId, transport: TransportType, rssi: Option<i16> },
    PeerLost { peer: PeerId, transport: TransportType },
    DataReceived(IncomingPacket),
    ConnectionEstablished { peer: PeerId, transport: TransportType },
    ConnectionLost { peer: PeerId, transport: TransportType },
}

/// Receives the events of transports.
pub trait TransportEventCallback {
    /// Handles one event.
    fn on_event(&self, event: TransportEvent);
}

/// The kinds of the registered transports that report themselves
/// available, in registration order.
pub open spec fn available_kinds(kinds: Seq<TransportType>, available: Seq<bool>) -> Seq<TransportType>
    decreases kinds.len(),
{
    if kinds.len() == 0 {
        Seq::empty()
    } else {
        let rest = available_kinds(kinds.drop_last(), available);
        if available[kinds.len() - 1] {
            rest.push(kinds.last())
        } else {
            rest
        }
    }
}

/// The kinds of the transports, registered in the order of `kinds`, whose
/// availability in `available` is true.
pub fn select_available(kinds: &Vec<TransportType>, available: &Vec<bool>) -> (r: Vec<TransportType>)
    requires
        kinds@.len() == available@.len(),
    ensures
        r@ == available_kinds(kinds@, available@),
{
    let mut r: Vec<TransportType> = Vec::new();
    let mut i: usize = 0;
    while i < kinds.len()
        invariant
            kinds@.len() == available@.len(),
            i <= kinds@.len(),
            r@ == available_kinds(kinds@.take(i as int), available@),
        decreases kinds@.len() - i,
    {
        assert(kinds@.take(i + 1).drop_last() =~= kinds@.take(i as int));
        if available[i] {
            r.push(kinds[i]);
        }
        i = i + 1;
    }
    assert(kinds@.take(kinds@.len() as int) =~= kinds@);
    r
}

/// The position of the first registered transport of kind `wanted`.
pub fn first_of_kind(kinds: &Vec<TransportType>, wanted: TransportType) -> (r: Option<usize>)
    ensures
        r matches Some(i) ==> i < kinds@.len() && kinds@[i as int] == wanted && forall|j: int|
            0 <= j < i ==> kinds@[j] != wanted,
        r is None ==> forall|j: int| 0 <= j < kinds@.len() ==> kinds@[j] != wanted,
{
    let mut i: usize = 0;
    while i < kinds.len()
        invariant
            i <= kinds@.len(),
            forall|j: int| 0 <= j < i ==> kinds@[j] != wanted,
        decreases kinds@.len() - i,
    {
        if kinds[i] == wanted {
            return Some(i);
        }
        i = i + 1;
    }
    None
}

} // verus!
