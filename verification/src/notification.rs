//! Standard notifications handed to the mobile operating system.

use vstd::prelude::*;
use crate::common::MessageId;
use crate::ident::{uuid_text, uuid_to_string};

verus! {

/// The kinds of notification.
#[derive(Debug, Clone, Copy, PartialEq, Eq, Structural)]
pub enum NotificationType {
    NewMessage,
    MessageDelivered,
    PeerDiscovered,
    TransferComplete,
    TransferFailed,
    ConnectionLost,
}

/// A notification: title, body, kind, and key-value metadata with
/// distinct keys.
#[derive(Debug)]
pub struct NotificationPayload {
    pub title: String,
    pub body: String,
    pub notification_type: NotificationType,
    pub metadata: Vec<(String, String)>,
}

impl NotificationPayload {
    /// The metadata as a map from key to value.
    pub open spec fn metadata_map(&self) -> Map<Seq<char>, Seq<char>> {
        Map::new(
            |k: Seq<char>| exists|i: int| 0 <= i < self.metadata@.len() && (#[trigger] self.metadata@[i]).0@ == k,
            |k: Seq<char>| {
                let i = choose|i: int| 0 <= i < self.metadata@.len() && (#[trigger] self.metadata@[i]).0@ == k;
                self.metadata@[i].1@
            },
        )
    }
}

/// Builds the platform's standard notifications.
#[derive(Debug, Default)]
pub struct NotificationEngine {}

impl NotificationEngine {
    /// An engine.
    pub fn new() -> (e: Self) {
        NotificationEngine {}
    }

    /// A notification of a new message from `sender`, showing `preview`.
    pub fn create_message_notification(sender: &str, preview: &str) -> (n: NotificationPayload)
        ensures
            n.title@ == "New message from "@ + sender@,
            n.body@ == preview@,
            n.notification_type == NotificationType::NewMessage,
            n.metadata@.len() == 0,
    {
        NotificationPayload {
            title: String::from_str("New message from ").concat(sender),
            body: String::from_str(preview),
            notification_type: NotificationType::NewMessage,
            metadata: Vec::new(),
        }
    }

    /// A notification that message `message_id` was delivered, carrying the
    /// identifier under the key `message_id`.
    pub fn create_delivery_notification(message_id: &MessageId) -> (n: NotificationPayload)
        ensures
            n.title@ == "Message Delivered"@,
            n.body@ == "Your message was securely delivered."@,
            n.notification_type == NotificationType::MessageDelivered,
            n.metadata@.len() == 1,
            n.metadata@[0].0@ == "message_id"@,
            n.metadata@[0].1@ == uuid_text(message_id.0),
            n.metadata_map() == map!["message_id"@ => uuid_text(message_id.0)],
    {
        let mut metadata: Vec<(String, String)> = Vec::new();
        metadata.push((String::from_str("message_id"), uuid_to_string(message_id.0)));
        let n = NotificationPayload {
            title: String::from_str("Message Delivered"),
            body: String::from_str("Your message was securely delivered."),
            notification_type: NotificationType::MessageDelivered,
            metadata,
        };
        assert(n.metadata@[0].0@ == "message_id"@);
        assert(n.metadata_map() =~= map!["message_id"@ => uuid_text(message_id.0)]);
        n
    }

    /// A notification that `peer_name` is nearby.
    pub fn create_peer_notification(peer_name: &str) -> (n: NotificationPayload)
        ensures
            n.title@ == "Peer Discovered"@,
            n.body@ == peer_name@ + " is nearby on the mesh network."@,
            n.notification_type == NotificationType::PeerDiscovered,
            n.metadata@.len() == 0,
    {
        NotificationPayload {
            title: String::from_str("Peer Discovered"),
            body: String::from_str(peer_name).concat(" is nearby on the mesh network."),
            notification_type: NotificationType::PeerDiscovered,
            metadata: Vec::new(),
        }
    }
}

} // verus!
