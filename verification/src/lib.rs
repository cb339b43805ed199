//! Remote control and liveness monitoring for Minecraft servers speaking the
//! Source RCON protocol over TCP.
//!
//! The crate is organised around the wire protocol and the state machines
//! that drive it: a packet codec ([`codec`]), a per-server session state
//! machine ([`session`]), a registry of configured servers with a
//! reconnect-and-retry policy ([`manager`]), a heartbeat supervisor
//! ([`heartbeat`]) and a polling liveness monitor ([`monitor`]).
//! All network and file I/O is performed by the embedding application, which
//! feeds results back into the state machines as plain values.

pub mod codec;
pub mod query_service;
pub mod server_monitor;
pub mod server_file_manager;
pub mod session;
pub mod heartbeat;
pub mod logger;
pub mod manager;
pub mod models;
pub mod monitor;
pub mod strmap;
pub mod text;

pub use codec::RconError;
pub use codec::RconPacket;
