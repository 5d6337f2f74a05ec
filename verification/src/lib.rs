//! Session and synchronisation core of a real-time world server.
//!
//! The crate holds the decisions of the networking layer as plain functions
//! over plain state: the framing of multiplexed traffic, the handshake, the
//! per-connection session, the registry of players and world instances, and
//! the periodic work of the server. Transport and scheduling stay with the
//! caller, which feeds events in and carries the answers out.

pub mod channel;
pub mod protocol;
pub mod registry;
pub mod relay;
pub mod sender;
pub mod server;
pub mod session;
pub mod str_map;
pub mod task;
pub mod wire;
pub mod world;
