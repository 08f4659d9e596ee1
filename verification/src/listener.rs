//! The listener's demultiplexer: every datagram is routed by connection id to
//! exactly one handle, or opens at most one new Incoming connection.
//!
//! The embedding owns the socket and the engine; it receives a datagram,
//! reaps dropped connections, asks `route_datagram` for the decision, and
//! performs the I/O the decision names.

use vstd::prelude::*;
use std::sync::Arc;
use tokio::sync::mpsc::Receiver;
use tokio::sync::mpsc::Sender;
use tokio::sync::Notify;
use crate::CONNECTION_DROP_CHANNEL_SIZE;
use crate::HANDSHAKE_PACKET_BUFFER_SIZE;
use crate::MAX_CONN_ID_LEN;
use crate::QuicError;
use crate::channel::RecvPoll;
use crate::channel::mpsc_channel;
use crate::channel::sender_clone;
use crate::channel::try_recv_poll;
use crate::connection::Connection;
use crate::connection::IncomingState;
use crate::connection::RecvInfo;
use crate::connection::SocketDetails;
use crate::connection::UdpRecv;
use crate::crypto::Crypto;
use crate::crypto::derived_cid;
use crate::header::Header;
use crate::header::PacketType;
use crate::header::be32_at;
use crate::header::is_long;
use crate::header::long_type_bits;
use crate::header::parse_header;
use crate::header::parse_ok;
use crate::header::spec_can_parse;
use crate::registry::Registry;
use crate::registry::clone_bytes;

verus! {

/// What the handshake driver reports back to the listener.
#[verifier::reject_recursive_types(E)]
pub enum HandshakeResponse<E> {
    /// The handshake finished; the listener should transition the entry.
    Established(EstablishedHandle<E>),
    /// The driver silently discarded the connection.
    Ignored,
    /// The driver rejected the connection.
    Rejected,
}

/// The listener's view of a connection still shaking hands.
#[verifier::reject_recursive_types(E)]
pub struct IncomingHandle<E> {
    pub udp_tx: Sender<UdpRecv>,
    pub response_rx: Receiver<HandshakeResponse<E>>,
}

/// The listener's view of a live connection.
#[verifier::reject_recursive_types(E)]
pub struct EstablishedHandle<E> {
    pub connection_id: Vec<u8>,
    pub connection: E,
    pub rx_notify: Arc<Notify>,
    pub tx_notify: Arc<Notify>,
}

/// A registry entry: Incoming first, Established after the handshake, never
/// back.
#[verifier::reject_recursive_types(E)]
pub enum ConnectionHandle<E> {
    Incoming(IncomingHandle<E>),
    Established(EstablishedHandle<E>),
}

/// The destination connection id a datagram carries on the wire, under this
/// listener's fixed short-header id length.
pub open spec fn wire_dcid(pkt: Seq<u8>) -> Seq<u8> {
    if !is_long(pkt[0]) {
        pkt.subrange(1, 1 + MAX_CONN_ID_LEN as int)
    } else {
        pkt.subrange(6, 6 + pkt[5] as int)
    }
}

/// Whether the datagram is an Initial packet, read off the raw bytes.
pub open spec fn wire_is_initial(pkt: Seq<u8>) -> bool {
    &&& is_long(pkt[0])
    &&& be32_at(pkt, 1) != 0
    &&& long_type_bits(pkt[0]) == 0
}

/// The id under which the listener looks a datagram up: the wire id if an
/// entry is filed under it, else the id derived from the wire id under `key`.
pub open spec fn route_key<E>(
    reg: Registry<ConnectionHandle<E>>,
    key: Seq<u8>,
    pkt: Seq<u8>,
) -> Seq<u8> {
    if reg.has_key(wire_dcid(pkt)) {
        wire_dcid(pkt)
    } else {
        derived_cid(key, wire_dcid(pkt))
    }
}

/// A successfully parsed header names the same destination id and the same
/// Initial-ness as the raw bytes.
proof fn lemma_parse_wire(pkt: Seq<u8>, h: Header, n: int)
    requires
        parse_ok(pkt, MAX_CONN_ID_LEN as int, h, n),
    ensures
        h.dcid@ == wire_dcid(pkt),
        (h.ty is Initial) == wire_is_initial(pkt),
{
    match h.ty {
        PacketType::Short => {},
        PacketType::VersionNegotiation => {},
        PacketType::Initial => {},
        PacketType::Retry => {},
        PacketType::Handshake => {},
        PacketType::ZeroRTT => {},
    }
}

/// What the accept loop does with one datagram.
#[verifier::reject_recursive_types(E)]
pub enum RouteDecision<E> {
    /// Drop the datagram: malformed header, or an unknown id on a packet
    /// that cannot open a connection.
    Dropped,
    /// An established connection owns it: feed it to the engine of the
    /// handle filed under `cid`, then fire that handle's rx and tx wake-ups.
    DeliverEstablished { cid: Vec<u8> },
    /// The handshake driver reported completion: feed the datagram to
    /// `handle.connection`; on success fire the wake-ups and hand the handle
    /// to `commit_establish`, on engine failure stop the accept loop.
    HandshakeEstablished { cid: Vec<u8>, handle: EstablishedHandle<E> },
    /// The connection is still shaking hands: send `dgram` on `udp_tx`,
    /// waiting if the driver is behind.
    ForwardToIncoming { udp_tx: Sender<UdpRecv>, dgram: UdpRecv },
    /// The driver gave the connection up, or went away; the entry is gone.
    Removed { cid: Vec<u8> },
    /// A fresh Initial packet with an unknown id: hand the new connection
    /// and the peer address to the caller of accept.
    NewIncoming { connection: Connection<E> },
}

/// One bound UDP endpoint: the signing key for id derivation, the registry
/// of live connections, and the drop channel on which connections report
/// their teardown.
#[verifier::reject_recursive_types(E)]
pub struct Listener<E> {
    crypto: Crypto,
    socket_details: SocketDetails,
    connections: Registry<ConnectionHandle<E>>,
    drop_tx: Sender<Vec<u8>>,
    drop_rx: Receiver<Vec<u8>>,
}

impl<E> Listener<E> {
    /// The bytes of the listener's signing key.
    pub closed spec fn key(self) -> Seq<u8> {
        self.crypto.key_bytes()
    }

    /// The registry of filed connections.
    pub closed spec fn reg(self) -> Registry<ConnectionHandle<E>> {
        self.connections
    }

    /// The probed socket facts the listener was built with.
    pub closed spec fn spec_socket_details(self) -> SocketDetails {
        self.socket_details
    }

    /// A well-formed listener: a full-length key and unique registry keys.
    pub closed spec fn wf(self) -> bool {
        &&& self.crypto.wf()
        &&& self.connections.wf()
    }

    /// Builds a listener around a probed socket, drawing a fresh signing key.
    pub fn new(socket_details: SocketDetails) -> (r: Result<Self, QuicError>)
        ensures
            r matches Ok(l) ==> {
                &&& l.wf()
                &&& l.reg().spec_len() == 0
                &&& forall|k: Seq<u8>| !l.reg().has_key(k)
                &&& l.spec_socket_details() == socket_details
            },
            r matches Err(e) ==> e is InternalError,
    {
        let crypto = match Crypto::generate() {
            Ok(c) => c,
            Err(e) => {
                return Err(e);
            },
        };
        Ok(Self::with_crypto(crypto, socket_details))
    }

    /// Builds a listener around a probed socket with a caller-pinned key.
    pub fn with_crypto(crypto: Crypto, socket_details: SocketDetails) -> (r: Self)
        requires
            crypto.wf(),
        ensures
            r.wf(),
            r.reg().spec_len() == 0,
            forall|k: Seq<u8>| !r.reg().has_key(k),
            r.key() == crypto.key_bytes(),
            r.spec_socket_details() == socket_details,
    {
        let (drop_tx, drop_rx) = mpsc_channel::<Vec<u8>>(CONNECTION_DROP_CHANNEL_SIZE);
        Listener { crypto, socket_details, connections: Registry::new(), drop_tx, drop_rx }
    }

    /// Derives the canonical connection id for a parsed header (stable for a
    /// fixed key and client id).
    pub fn gen_cid(&self, header: &Header) -> (r: Vec<u8>)
        requires
            self.wf(),
            header.dcid@.len() < 0x2000000000000000,
        ensures
            r@ == derived_cid(self.key(), header.dcid@),
            r@.len() == MAX_CONN_ID_LEN as int,
    {
        self.crypto.gen_cid(&header.dcid)
    }

    /// The probed socket facts: local address, GSO and pacing support.
    pub fn socket_details(&self) -> (r: SocketDetails)
        ensures
            r == self.spec_socket_details(),
    {
        self.socket_details
    }

    /// Whether a connection is filed under `cid`.
    pub fn has_connection(&self, cid: &Vec<u8>) -> (r: bool)
        requires
            self.wf(),
        ensures
            r == self.reg().has_key(cid@),
    {
        match self.connections.get(cid) {
            Some(_) => true,
            None => false,
        }
    }

    /// How many connections are filed.
    pub fn connection_count(&self) -> (r: usize)
        ensures
            r == self.reg().spec_len(),
    {
        self.connections.len()
    }

    /// Borrows the handle filed under `cid`, e.g. to reach the engine and the
    /// wake-ups of an established connection.
    pub fn get_handle(&self, cid: &Vec<u8>) -> (r: Option<&ConnectionHandle<E>>)
        requires
            self.wf(),
        ensures
            (r is Some) == self.reg().has_key(cid@),
            r matches Some(h) ==> *h == self.reg().value_at(cid@),
    {
        self.connections.get(cid)
    }

    /// Drains the drop channel and removes every reported id from the
    /// registry: run at the top of each accept iteration. Ids that are not
    /// filed (a double drop) are ignored. Removes entries, never adds any.
    pub fn reap_dropped(&mut self)
        requires
            old(self).wf(),
        ensures
            final(self).wf(),
            final(self).key() == old(self).key(),
            final(self).spec_socket_details() == old(self).spec_socket_details(),
            forall|k: Seq<u8>| final(self).reg().has_key(k) ==> old(self).reg().has_key(k),
            forall|k: Seq<u8>|
                final(self).reg().has_key(k) ==> final(self).reg().value_at(k) == old(
                    self,
                ).reg().value_at(k),
    {
        let mut i: usize = 0;
        while i < CONNECTION_DROP_CHANNEL_SIZE
            invariant
                self.wf(),
                self.key() == old(self).key(),
                self.spec_socket_details() == old(self).spec_socket_details(),
                forall|k: Seq<u8>| self.reg().has_key(k) ==> old(self).reg().has_key(k),
                forall|k: Seq<u8>|
                    self.reg().has_key(k) ==> self.reg().value_at(k) == old(self).reg().value_at(k),
            decreases CONNECTION_DROP_CHANNEL_SIZE - i,
        {
            match try_recv_poll(&mut self.drop_rx) {
                RecvPoll::Got(drop_id) => {
                    let _ = self.connections.remove(&drop_id);
                },
                RecvPoll::Empty => {
                    return ;
                },
                RecvPoll::Disconnected => {
                    return ;
                },
            }
            i = i + 1;
        }
    }

    /// Files `handle` as the Established entry under `cid`: the registry-side
    /// half of the Incoming-to-Established transition, called after the
    /// engine accepted the datagram that completed the handshake.
    pub fn commit_establish(&mut self, cid: Vec<u8>, handle: EstablishedHandle<E>)
        requires
            old(self).wf(),
            !old(self).reg().has_key(cid@),
        ensures
            final(self).wf(),
            final(self).key() == old(self).key(),
            final(self).spec_socket_details() == old(self).spec_socket_details(),
            final(self).reg().has_key(cid@),
            final(self).reg().value_at(cid@) == ConnectionHandle::Established(handle),
            final(self).reg().spec_len() == old(self).reg().spec_len() + 1,
            forall|k: Seq<u8>|
                k != cid@ ==> final(self).reg().has_key(k) == old(self).reg().has_key(k),
            forall|k: Seq<u8>|
                k != cid@ && old(self).reg().has_key(k) ==> final(self).reg().value_at(k) == old(
                    self,
                ).reg().value_at(k),
    {
        self.connections.insert(cid, ConnectionHandle::Established(handle));
    }

    /// Routes one datagram: the heart of the accept loop. The datagram is
    /// looked up first under its wire destination id, then under the id
    /// derived from it; it reaches exactly the handle filed under that key,
    /// or opens at most one new Incoming connection when it is an Initial
    /// packet that matches no entry.
    pub fn route_datagram(&mut self, pkt: Vec<u8>, recv_info: RecvInfo) -> (r: RouteDecision<E>)
        requires
            old(self).wf(),
        ensures
            final(self).wf(),
            final(self).key() == old(self).key(),
            final(self).spec_socket_details() == old(self).spec_socket_details(),
            !spec_can_parse(pkt@, MAX_CONN_ID_LEN as int) ==> r is Dropped,
            r is Dropped ==> *final(self) == *old(self),
            r is Dropped && spec_can_parse(pkt@, MAX_CONN_ID_LEN as int) ==> {
                &&& !old(self).reg().has_key(wire_dcid(pkt@))
                &&& !old(self).reg().has_key(derived_cid(old(self).key(), wire_dcid(pkt@)))
                &&& !wire_is_initial(pkt@)
            },
            r matches RouteDecision::DeliverEstablished { cid } ==> {
                &&& cid@ == route_key(old(self).reg(), old(self).key(), pkt@)
                &&& old(self).reg().has_key(cid@)
                &&& old(self).reg().value_at(cid@) is Established
                &&& *final(self) == *old(self)
            },
            r matches RouteDecision::HandshakeEstablished { cid, handle } ==> {
                &&& cid@ == route_key(old(self).reg(), old(self).key(), pkt@)
                &&& old(self).reg().has_key(cid@)
                &&& old(self).reg().value_at(cid@) is Incoming
                &&& !final(self).reg().has_key(cid@)
                &&& forall|k: Seq<u8>|
                    k != cid@ ==> final(self).reg().has_key(k) == old(self).reg().has_key(k)
                &&& forall|k: Seq<u8>|
                    k != cid@ && old(self).reg().has_key(k) ==> final(self).reg().value_at(k)
                        == old(self).reg().value_at(k)
            },
            r matches RouteDecision::ForwardToIncoming { udp_tx, dgram } ==> {
                let ck = route_key(old(self).reg(), old(self).key(), pkt@);
                &&& old(self).reg().has_key(ck)
                &&& old(self).reg().value_at(ck) is Incoming
                &&& dgram.pkt@ == pkt@
                &&& dgram.recv_info == recv_info
                &&& dgram.header.dcid@ == wire_dcid(pkt@)
                &&& final(self).reg().has_key(ck)
                &&& final(self).reg().value_at(ck) is Incoming
                &&& forall|k: Seq<u8>|
                    final(self).reg().has_key(k) == old(self).reg().has_key(k)
                &&& forall|k: Seq<u8>|
                    k != ck && old(self).reg().has_key(k) ==> final(self).reg().value_at(k) == old(
                        self,
                    ).reg().value_at(k)
            },
            r matches RouteDecision::Removed { cid } ==> {
                &&& cid@ == route_key(old(self).reg(), old(self).key(), pkt@)
                &&& old(self).reg().has_key(cid@)
                &&& old(self).reg().value_at(cid@) is Incoming
                &&& !final(self).reg().has_key(cid@)
                &&& forall|k: Seq<u8>|
                    k != cid@ ==> final(self).reg().has_key(k) == old(self).reg().has_key(k)
                &&& forall|k: Seq<u8>|
                    k != cid@ && old(self).reg().has_key(k) ==> final(self).reg().value_at(k)
                        == old(self).reg().value_at(k)
            },
            r matches RouteDecision::NewIncoming { connection } ==> {
                let d = wire_dcid(pkt@);
                let g = derived_cid(old(self).key(), d);
                &&& wire_is_initial(pkt@)
                &&& !old(self).reg().has_key(d)
                &&& !old(self).reg().has_key(g)
                &&& connection matches Connection::Incoming(s) && {
                    &&& s.connection_id@ == g
                    &&& s.dgram.header.ty is Initial
                    &&& s.dgram.pkt@ == pkt@
                    &&& s.dgram.recv_info == recv_info
                    &&& s.dgram.header.dcid@ == d
                    &&& s.socket_details == old(self).spec_socket_details()
                    &&& !s.ignore
                    &&& !s.reject
                }
                &&& final(self).reg().has_key(g)
                &&& final(self).reg().value_at(g) is Incoming
                &&& final(self).reg().spec_len() == old(self).reg().spec_len() + 1
                &&& forall|k: Seq<u8>|
                    k != g ==> final(self).reg().has_key(k) == old(self).reg().has_key(k)
                &&& forall|k: Seq<u8>|
                    k != g && old(self).reg().has_key(k) ==> final(self).reg().value_at(k) == old(
                        self,
                    ).reg().value_at(k)
            },
            ({
                let d = wire_dcid(pkt@);
                let g = derived_cid(old(self).key(), d);
                let ck = route_key(old(self).reg(), old(self).key(), pkt@);
                &&& (spec_can_parse(pkt@, MAX_CONN_ID_LEN as int) && !old(self).reg().has_key(d)
                    && !old(self).reg().has_key(g) && wire_is_initial(pkt@) ==> r is NewIncoming)
                &&& (spec_can_parse(pkt@, MAX_CONN_ID_LEN as int) && !old(self).reg().has_key(d)
                    && !old(self).reg().has_key(g) && !wire_is_initial(pkt@) ==> r is Dropped)
                &&& (spec_can_parse(pkt@, MAX_CONN_ID_LEN as int) && old(self).reg().has_key(ck)
                    && old(self).reg().value_at(ck) is Established ==> r is DeliverEstablished)
                &&& (spec_can_parse(pkt@, MAX_CONN_ID_LEN as int) && old(self).reg().has_key(ck)
                    && old(self).reg().value_at(ck) is Incoming ==> (r is HandshakeEstablished
                    || r is ForwardToIncoming || r is Removed))
            }),
    {
        let parsed = parse_header(&pkt, MAX_CONN_ID_LEN);
        let (header, hlen) = match parsed {
            Some(hn) => hn,
            None => {
                return RouteDecision::Dropped;
            },
        };
        proof {
            lemma_parse_wire(pkt@, header, hlen as int);
        }
        let mut cid = clone_bytes(&header.dcid);
        if !self.has_connection(&cid) {
            cid = self.crypto.gen_cid(&header.dcid);
        }
        let present = self.has_connection(&cid);
        if present {
            let is_established = match self.connections.get(&cid) {
                Some(ConnectionHandle::Established(_)) => true,
                _ => false,
            };
            if is_established {
                return RouteDecision::DeliverEstablished { cid };
            }
            let handle = match self.connections.remove(&cid) {
                Some(h) => h,
                None => {
                    proof {
                        assert(false);
                    }
                    return RouteDecision::Dropped;
                },
            };
            match handle {
                ConnectionHandle::Incoming(mut ih) => {
                    match try_recv_poll(&mut ih.response_rx) {
                        RecvPoll::Got(resp) => match resp {
                            HandshakeResponse::Established(e) => {
                                return RouteDecision::HandshakeEstablished { cid, handle: e };
                            },
                            HandshakeResponse::Ignored => {
                                return RouteDecision::Removed { cid };
                            },
                            HandshakeResponse::Rejected => {
                                return RouteDecision::Removed { cid };
                            },
                        },
                        RecvPoll::Empty => {
                            let udp_tx = sender_clone(&ih.udp_tx);
                            let dgram = UdpRecv { pkt, header, recv_info };
                            self.connections.insert(cid, ConnectionHandle::Incoming(ih));
                            return RouteDecision::ForwardToIncoming { udp_tx, dgram };
                        },
                        RecvPoll::Disconnected => {
                            return RouteDecision::Removed { cid };
                        },
                    }
                },
                ConnectionHandle::Established(e2) => {
                    proof {
                        assert(false);
                    }
                    self.connections.insert(cid, ConnectionHandle::Established(e2));
                    return RouteDecision::Dropped;
                },
            }
        }
        let is_initial = match header.ty {
            PacketType::Initial => true,
            _ => false,
        };
        if !is_initial {
            return RouteDecision::Dropped;
        }
        let (udp_tx, udp_rx) = mpsc_channel::<UdpRecv>(HANDSHAKE_PACKET_BUFFER_SIZE);
        let (response_tx, response_rx) = mpsc_channel::<HandshakeResponse<E>>(1);
        let dgram = UdpRecv { pkt, header, recv_info };
        let state = IncomingState {
            connection_id: clone_bytes(&cid),
            drop_connection: sender_clone(&self.drop_tx),
            socket_details: self.socket_details,
            udp_rx,
            response_tx,
            dgram,
            ignore: false,
            reject: false,
        };
        let handle = ConnectionHandle::Incoming(IncomingHandle { udp_tx, response_rx });
        self.connections.insert(cid, handle);
        RouteDecision::NewIncoming { connection: Connection::Incoming(state) }
    }
}

} // verus!
