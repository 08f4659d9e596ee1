//! The caller's view of one connection: first Incoming, while the handshake
//! runs, then Established, exactly once, via `establish`.
//!
//! The engine reference type `E` is opaque to the core: the embedding passes
//! whatever shared handle its QUIC engine lives behind.

use vstd::prelude::*;
use std::sync::Arc;
use tokio::sync::mpsc::Receiver;
use tokio::sync::mpsc::Sender;
use tokio::sync::Notify;
use tokio::task::JoinHandle;
use crate::QuicError;
use crate::channel::abort_task;
use crate::channel::task_is_finished;
use crate::channel::try_send_value;
use crate::header::Header;
use crate::registry::clone_bytes;

verus! {

/// A socket address as plain values: the ip bytes as one integer, the port,
/// and whether the address is IPv6.
#[derive(Clone, Copy, PartialEq, Eq, Structural, Debug)]
pub struct SockAddr {
    pub ip: u128,
    pub port: u16,
    pub v6: bool,
}

/// Where a datagram arrived: the listener's local address and the peer.
#[derive(Clone, Copy, PartialEq, Eq, Structural, Debug)]
pub struct RecvInfo {
    pub to: SockAddr,
    pub from: SockAddr,
}

/// What the listener learned about its socket when it was built.
#[derive(Clone, Copy, PartialEq, Eq, Structural, Debug)]
pub struct SocketDetails {
    pub addr: SockAddr,
    pub gso_enabled: bool,
    pub pacing_enabled: bool,
}

/// One received datagram: the raw bytes, the parsed header, and where it
/// came from.
pub struct UdpRecv {
    pub pkt: Vec<u8>,
    pub header: Header,
    pub recv_info: RecvInfo,
}

/// A connection whose handshake has not finished: the buffered first
/// datagram, the channel on which the listener forwards later datagrams, and
/// the channel on which the handshake driver reports its outcome.
#[verifier::reject_recursive_types(E)]
pub struct IncomingState<E> {
    pub connection_id: Vec<u8>,
    pub drop_connection: Sender<Vec<u8>>,
    pub socket_details: SocketDetails,
    pub udp_rx: Receiver<UdpRecv>,
    pub response_tx: Sender<crate::listener::HandshakeResponse<E>>,
    pub dgram: UdpRecv,
    /// Advisory: the driver decided to silently discard this connection.
    pub ignore: bool,
    /// Advisory: the driver decided to reject this connection.
    pub reject: bool,
}

/// A live connection: the engine reference, the transmit task, and the
/// wake-ups shared with the listener and the transmit loop.
#[verifier::reject_recursive_types(E)]
pub struct EstablishedState<E> {
    pub connection_id: Vec<u8>,
    pub connection: E,
    pub tx_handle: JoinHandle<Result<(), QuicError>>,
    pub drop_connection: Sender<Vec<u8>>,
    pub rx_notify: Arc<Notify>,
    pub tx_notify: Arc<Notify>,
    pub tx_flushed: Arc<Notify>,
}

/// The caller's connection value: a two-state machine that moves from
/// Incoming to Established exactly once and never back.
#[verifier::reject_recursive_types(E)]
pub enum Connection<E> {
    Incoming(IncomingState<E>),
    Established(EstablishedState<E>),
}

impl<E> Connection<E> {
    /// The id the listener files this connection under.
    pub open spec fn spec_connection_id(self) -> Seq<u8> {
        match self {
            Connection::Incoming(s) => s.connection_id@,
            Connection::Established(s) => s.connection_id@,
        }
    }

    /// Moves this connection to Established. Succeeds exactly on an Incoming
    /// connection — so at most once per instance — and otherwise reports an
    /// internal error and leaves the value unchanged.
    pub fn establish(&mut self, state: EstablishedState<E>) -> (r: Result<(), QuicError>)
        ensures
            *old(self) is Incoming ==> (r is Ok && *final(self) == Connection::Established(state)),
            *old(self) is Established ==> ((r matches Err(e) && e is InternalError) && *final(self)
                == *old(self)),
    {
        match self {
            Connection::Incoming(_) => {
                *self = Connection::Established(state);
                Ok(())
            },
            Connection::Established(_) => Err(QuicError::InternalError),
        }
    }

    /// Tears an Established connection down: aborts the transmit task unless
    /// it already finished, and queues the connection id on the listener's
    /// drop channel so the next accept iteration reaps the registry entry.
    /// An Incoming connection needs no teardown beyond dropping its channels.
    pub fn shutdown(&self) {
        match self {
            Connection::Incoming(_) => {},
            Connection::Established(s) => {
                if !task_is_finished(&s.tx_handle) {
                    abort_task(&s.tx_handle);
                }
                let id = clone_bytes(&s.connection_id);
                let _ = try_send_value(&s.drop_connection, id);
            },
        }
    }

    /// Which state the connection is in, for embeddings that must branch on
    /// it without taking the value apart.
    pub fn is_established(&self) -> (r: bool)
        ensures
            r == (*self is Established),
    {
        match self {
            Connection::Incoming(_) => false,
            Connection::Established(_) => true,
        }
    }
}

} // verus!
