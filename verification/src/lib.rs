//! End-to-end encrypted peer-to-peer messaging with a fallback relay.
//!
//! The crate holds the protocol logic: the ephemeral key cascade, the
//! authenticated-encryption engine, the wire format and its length-prefixed
//! framing, the per-connection send and receive rules, the dialing policy and
//! the relay's admission and fan-out state. Sockets, timers and task
//! scheduling are left to the program that drives it. A small module
//! produces the files a relay is deployed with.

pub mod primitives;
pub mod crypto;
pub mod wire;
pub mod network;
pub mod manager;
pub mod relay;
pub mod deploy;

pub use crate::crypto::{CryptoError, EncryptedMessage, EphemeralKeys, SilenceCrypto};
pub use crate::manager::ConnectionManager;
pub use crate::network::{MessageType, NetworkError, NetworkMessage, P2PConnection};

use vstd::prelude::*;

verus! {

/// How a peer is to be reached.
#[derive(Debug, Clone, Copy, PartialEq, Eq, Structural)]
pub enum ConnectionMode {
    /// Dial the peer; fall back to the relays.
    Auto,
    /// Dial the peer and nothing else.
    DirectOnly,
    /// Go through a relay and never dial the peer.
    RelayOnly,
}

/// The settings of a peer.
#[derive(Debug, Clone)]
pub struct Config {
    /// The port a peer listens on.
    pub listen_port: u16,
    /// Seconds a key generation stays valid.
    pub key_rotation_interval: u64,
    /// The longest payload a connection sends or accepts, in bytes.
    pub max_message_size: usize,
    /// Seconds a connection attempt may take.
    pub connection_timeout: u64,
    /// The relay endpoints, in the order they are tried.
    pub relay_servers: Vec<String>,
}

impl Default for Config {
    /// Port 7642, rotation every 15 seconds, payloads up to 4096 bytes, 30
    /// seconds to connect, and one relay.
    fn default() -> (config: Self)
        ensures
            config.listen_port == 7642,
            config.key_rotation_interval == 15,
            config.max_message_size == 4096,
            config.connection_timeout == 30,
            config.relay_servers@.len() == 1,
            config.relay_servers@[0]@ == "185.191.116.220:8080"@,
    {
        let mut relay_servers: Vec<String> = Vec::new();
        relay_servers.push("185.191.116.220:8080".to_owned());
        Config {
            listen_port: 7642,
            key_rotation_interval: 15,
            max_message_size: 4096,
            connection_timeout: 30,
            relay_servers,
        }
    }
}

} // verus!
