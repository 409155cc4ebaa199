//! Gupt: the verified core of an offline-first, end-to-end encrypted
//! messenger that routes over BLE, Wi-Fi Direct, a delay-tolerant mesh and
//! an internet relay.

pub mod seq_facts;
pub mod time;
pub mod entropy;
pub mod ident;
pub mod text;
pub mod codec;
pub mod crypto;
pub mod common;
pub mod battery;
pub mod network_monitor;
pub mod routing;
pub mod queue;
pub mod mesh;
pub mod trust;
pub mod sync;
pub mod file_transfer;
pub mod discovery;
pub mod identity;
pub mod notification;
pub mod storage;
pub mod transport;
pub mod ffi;
pub mod backend;
