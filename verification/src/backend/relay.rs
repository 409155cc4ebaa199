//! The relay of end-to-end encrypted messages: what it accepts into its
//! queue, and the records it keeps.

use vstd::prelude::*;
use crate::backend::models::{EncryptedRelayMessage, RelayMessageRequest};
use crate::codec::{base64_decode, base64_standard_decoded};
use crate::common::Timestamp;
use crate::text::{append_decimal, decimal_text};

verus! {

/// Errors of the relay.
#[derive(Debug)]
pub enum RelayError {
    StoreFailed(String),
    RecipientNotFound,
    PayloadTooLarge { size: usize, max: usize },
    QueueFull,
    DeliveryFailed(String),
}

impl RelayError {
    /// The error's text.
    pub open spec fn describe(&self) -> Seq<char> {
        match self {
            RelayError::StoreFailed(m) => "store failed: "@ + m@,
            RelayError::RecipientNotFound => "recipient not found"@,
            RelayError::PayloadTooLarge { size, max } => "payload too large: "@ + decimal_text(
                *size as nat,
            ) + " bytes (max "@ + decimal_text(*max as nat) + ")"@,
            RelayError::QueueFull => "queue full"@,
            RelayError::DeliveryFailed(m) => "delivery failed: "@ + m@,
        }
    }

    /// The error's text.
    pub fn message(&self) -> (s: String)
        ensures
            s@ == self.describe(),
    {
        match self {
            RelayError::StoreFailed(m) => String::from_str("store failed: ").concat(m.as_str()),
            RelayError::RecipientNotFound => String::from_str("recipient not found"),
            RelayError::PayloadTooLarge { size, max } => {
                let mut s = String::from_str("payload too large: ");
                append_decimal(&mut s, *size as u64);
                s.append(" bytes (max ");
                append_decimal(&mut s, *max as u64);
                s.append(")");
                s
            },
            RelayError::QueueFull => String::from_str("queue full"),
            RelayError::DeliveryFailed(m) => String::from_str("delivery failed: ").concat(m.as_str()),
        }
    }
}

/// Settings of the relay.
#[derive(Debug, Clone, Copy)]
pub struct RelayConfig {
    /// Largest payload accepted, in bytes.
    pub max_payload_size: usize,
    /// Most messages pending per user.
    pub max_queue_per_user: usize,
    /// Seconds a message is kept when the request names no time.
    pub default_ttl_seconds: i32,
}

impl Default for RelayConfig {
    fn default() -> (c: Self)
        ensures
            c.max_payload_size == 256 * 1024,
            c.max_queue_per_user == 1000,
            c.default_ttl_seconds == 86400,
    {
        RelayConfig { max_payload_size: 256 * 1024, max_queue_per_user: 1000, default_ttl_seconds: 86400 }
    }
}

/// The relay service.
#[derive(Debug, Clone, Copy)]
pub struct RelayService {
    pub config: RelayConfig,
}

impl RelayService {
    /// A relay with these settings.
    pub fn new(config: RelayConfig) -> (s: Self)
        ensures
            s.config == config,
    {
        RelayService { config }
    }

    /// The queue record for a request from `sender_id`, under identifier
    /// `message_id` at `now`: the payload and signature are decoded from
    /// base64 and the payload must not exceed the size limit.
    pub fn prepare_message(
        &self,
        sender_id: u128,
        request: &RelayMessageRequest,
        message_id: u128,
        now: Timestamp,
    ) -> (r: Result<EncryptedRelayMessage, RelayError>)
        ensures
            ({
                let payload = base64_standard_decoded(request.encrypted_payload@);
                let signature = base64_standard_decoded(request.packet_signature@);
                match payload {
                    Err(t) => r matches Err(RelayError::StoreFailed(m)) && m@ == "invalid base64 payload: "@
                        + t,
                    Ok(p) => if p.len() > self.config.max_payload_size {
                        r matches Err(RelayError::PayloadTooLarge { size, max }) && size == p.len()
                            && max == self.config.max_payload_size
                    } else {
                        match signature {
                            Err(t) => r matches Err(RelayError::StoreFailed(m)) && m@
                                == "invalid base64 signature: "@ + t,
                            Ok(s) => r matches Ok(msg) && msg.id == message_id && msg.sender_id
                                == sender_id && msg.recipient_id == request.recipient_id
                                && msg.encrypted_payload@ == p && msg.packet_signature@ == s
                                && msg.ttl == (match request.ttl {
                                Some(t) => t,
                                None => self.config.default_ttl_seconds,
                            }) && msg.status@ == "pending"@ && msg.created_at == now,
                        }
                    },
                }
            }),
            r matches Ok(msg) ==> msg.encrypted_payload@.len() <= self.config.max_payload_size,
    {
        let payload = match base64_decode(request.encrypted_payload.as_str()) {
            Ok(b) => b,
            Err(t) => {
                return Err(
                    RelayError::StoreFailed(
                        String::from_str("invalid base64 payload: ").concat(t.as_str()),
                    ),
                );
            },
        };
        if payload.len() > self.config.max_payload_size {
            return Err(
                RelayError::PayloadTooLarge {
                    size: payload.len(),
                    max: self.config.max_payload_size,
                },
            );
        }
        let signature = match base64_decode(request.packet_signature.as_str()) {
            Ok(b) => b,
            Err(t) => {
                return Err(
                    RelayError::StoreFailed(
                        String::from_str("invalid base64 signature: ").concat(t.as_str()),
                    ),
                );
            },
        };
        let ttl = match request.ttl {
            Some(t) => t,
            None => self.config.default_ttl_seconds,
        };
        Ok(
            EncryptedRelayMessage {
                id: message_id,
                sender_id,
                recipient_id: request.recipient_id,
                encrypted_payload: payload,
                packet_signature: signature,
                ttl,
                status: String::from_str("pending"),
                created_at: now,
            },
        )
    }

    /// The error for a failure of the relay queue's store.
    pub fn store_failure(text: &str) -> (e: RelayError)
        ensures
            e matches RelayError::StoreFailed(m) && m@ == text@,
    {
        RelayError::StoreFailed(String::from_str(text))
    }

    /// The error for a failure to poll, acknowledge or purge.
    pub fn delivery_failure(text: &str) -> (e: RelayError)
        ensures
            e matches RelayError::DeliveryFailed(m) && m@ == text@,
    {
        RelayError::DeliveryFailed(String::from_str(text))
    }
}

} // verus!
