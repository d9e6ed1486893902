//! An encrypted, reliable datagram protocol between sensor devices and a
//! collecting server: wire framing, the Noise handshake and transport state
//! machine of both endpoints, the server's session table, and the retry and
//! retransmission rules that make the exchange survive a lossy channel.
//!
//! The library holds no socket and no clock. A caller hands it the datagrams
//! it received and the time it read, and performs what the library answers.

pub mod client;
pub mod command;
pub mod endian;
pub mod error;
pub mod exchange;
pub mod network;
pub mod noise;
pub mod output;
pub mod serialize;
pub mod server;
