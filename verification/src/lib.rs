//! Core of a QUIC listener: datagram routing by connection id, handshake
//! lifecycle, and a loss-reactive transmit burst sizer.

use vstd::prelude::*;

pub mod burst;
pub mod channel;
pub mod connection;
pub mod crypto;
pub mod header;
pub mod listener;
pub mod registry;
pub mod tx;

verus! {

/// Largest UDP payload that fits an IPv6 packet (65535 - 40 - 8).
pub const MAX_IPV6_BUF_SIZE: usize = 65487;

/// 1500 (Ethernet) - 40 (IPv6 header) - 8 (UDP header).
pub const MAX_IPV6_UDP_PACKET_SIZE: usize = 1452;

/// Segment size used for batched (GSO) transmission over IPv6.
pub const MAX_IPV6_QUIC_DATAGRAM_SIZE: usize = 1350;

/// Capacity of the per-connection datagram channel used during the handshake.
pub const HANDSHAKE_PACKET_BUFFER_SIZE: usize = 64;

/// Capacity of the channel on which dropped connections report their id.
pub const CONNECTION_DROP_CHANNEL_SIZE: usize = 1024;

/// Longest connection id the listener accepts or derives.
pub const MAX_CONN_ID_LEN: usize = 20;

/// Why an operation of the listener core failed.
#[derive(Clone, Copy, PartialEq, Eq, Structural, Debug)]
pub enum QuicError {
    /// The socket could not be queried or driven.
    SocketError,
    /// An internal invariant was violated, e.g. establishing a connection twice.
    InternalError,
    /// The engine or the socket refused outgoing data.
    WriteError,
}

} // verus!
