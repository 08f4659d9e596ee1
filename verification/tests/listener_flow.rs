//! End-to-end routing scenarios: new connection, handshake traffic,
//! establishment, rejection, and drop reaping.

use std::sync::Arc;
use quic_listener::MAX_CONN_ID_LEN;
use quic_listener::QuicError;
use quic_listener::connection::Connection;
use quic_listener::connection::EstablishedState;
use quic_listener::connection::IncomingState;
use quic_listener::connection::RecvInfo;
use quic_listener::connection::SockAddr;
use quic_listener::connection::SocketDetails;
use quic_listener::crypto::Crypto;
use quic_listener::listener::ConnectionHandle;
use quic_listener::listener::EstablishedHandle;
use quic_listener::listener::HandshakeResponse;
use quic_listener::listener::Listener;
use quic_listener::listener::RouteDecision;

type Engine = u64;

fn test_details() -> SocketDetails {
    SocketDetails {
        addr: SockAddr { ip: 0, port: 443, v6: false },
        gso_enabled: false,
        pacing_enabled: false,
    }
}

fn peer() -> RecvInfo {
    RecvInfo {
        to: SockAddr { ip: 0, port: 443, v6: false },
        from: SockAddr { ip: 0xCB007105, port: 40000, v6: false }, // 203.0.113.5
    }
}

fn initial_packet(dcid: &[u8]) -> Vec<u8> {
    let mut p = vec![0xC0u8];
    p.extend_from_slice(&[0, 0, 0, 1]);
    p.push(dcid.len() as u8);
    p.extend_from_slice(dcid);
    p.push(0);
    p.push(0);
    p.extend_from_slice(&[0x22u8; 40]);
    p
}

fn handshake_packet(dcid: &[u8]) -> Vec<u8> {
    let mut p = vec![0xE0u8]; // long header, type bits 10: Handshake
    p.extend_from_slice(&[0, 0, 0, 1]);
    p.push(dcid.len() as u8);
    p.extend_from_slice(dcid);
    p.push(0);
    p.extend_from_slice(&[0x33u8; 40]);
    p
}

fn test_listener() -> (Listener<Engine>, Vec<u8>) {
    let key = vec![0x5Au8; 32];
    let listener = Listener::with_crypto(Crypto::from_key_bytes(key.clone()), test_details());
    (listener, key)
}

fn client_dcid() -> Vec<u8> {
    vec![0x01, 0x02, 0x03, 0x04, 0x05, 0x06, 0x07, 0x08]
}

fn expected_cid(key: &[u8], dcid: &[u8]) -> Vec<u8> {
    let rkey = ring::hmac::Key::new(ring::hmac::HMAC_SHA256, key);
    let tag = ring::hmac::sign(&rkey, dcid);
    tag.as_ref()[..MAX_CONN_ID_LEN].to_vec()
}

fn open_incoming(listener: &mut Listener<Engine>) -> (IncomingState<Engine>, Vec<u8>) {
    match listener.route_datagram(initial_packet(&client_dcid()), peer()) {
        RouteDecision::NewIncoming { connection } => match connection {
            Connection::Incoming(state) => {
                let cid = state.connection_id.clone();
                (state, cid)
            },
            Connection::Established(_) => panic!("fresh connection cannot be established"),
        },
        _ => panic!("first Initial must open a connection"),
    }
}

fn established_handle(cid: &[u8], engine: Engine) -> EstablishedHandle<Engine> {
    EstablishedHandle {
        connection_id: cid.to_vec(),
        connection: engine,
        rx_notify: Arc::new(tokio::sync::Notify::new()),
        tx_notify: Arc::new(tokio::sync::Notify::new()),
    }
}

#[test]
fn new_connection_is_filed_under_derived_cid() {
    let (mut listener, key) = test_listener();
    let (state, cid) = open_incoming(&mut listener);
    assert_eq!(cid, expected_cid(&key, &client_dcid()));
    assert_eq!(listener.connection_count(), 1);
    assert!(listener.has_connection(&cid));
    assert!(!listener.has_connection(&client_dcid()));
    assert_eq!(state.dgram.header.dcid, client_dcid());
    assert_eq!(state.dgram.recv_info.from.port, 40000);
    assert!(!state.ignore && !state.reject);
}

#[test]
fn second_datagram_during_handshake_is_forwarded() {
    let (mut listener, _key) = test_listener();
    let (mut state, _cid) = open_incoming(&mut listener);
    match listener.route_datagram(initial_packet(&client_dcid()), peer()) {
        RouteDecision::ForwardToIncoming { udp_tx, dgram } => {
            assert_eq!(dgram.header.dcid, client_dcid());
            udp_tx.try_send(dgram).ok().expect("channel has room");
        },
        _ => panic!("datagram during the handshake must be forwarded"),
    }
    assert_eq!(listener.connection_count(), 1); // no second accept result
    let got = state.udp_rx.try_recv().expect("forwarded datagram");
    assert_eq!(got.header.dcid, client_dcid());
    assert_eq!(got.pkt, initial_packet(&client_dcid()));
}

#[test]
fn handshake_established_transitions_the_entry() {
    let (mut listener, _key) = test_listener();
    let (state, cid) = open_incoming(&mut listener);
    state
        .response_tx
        .try_send(HandshakeResponse::Established(established_handle(&cid, 7)))
        .ok()
        .expect("response channel has capacity one");
    let (got_cid, handle) = match listener.route_datagram(initial_packet(&client_dcid()), peer()) {
        RouteDecision::HandshakeEstablished { cid, handle } => (cid, handle),
        _ => panic!("completion response must transition the handle"),
    };
    assert_eq!(got_cid, cid);
    assert_eq!(handle.connection, 7); // the engine the driver registered
    listener.commit_establish(got_cid, handle);
    match listener.get_handle(&cid) {
        Some(ConnectionHandle::Established(e)) => assert_eq!(e.connection_id, cid),
        _ => panic!("entry must be Established after the commit"),
    }
    // The next datagram goes straight to the engine.
    match listener.route_datagram(initial_packet(&client_dcid()), peer()) {
        RouteDecision::DeliverEstablished { cid: c } => assert_eq!(c, cid),
        _ => panic!("established connection must receive directly"),
    }
}

#[test]
fn rejected_handshake_clears_the_entry() {
    let (mut listener, _key) = test_listener();
    let (state, cid) = open_incoming(&mut listener);
    state.response_tx.try_send(HandshakeResponse::Rejected).ok().expect("capacity one");
    match listener.route_datagram(initial_packet(&client_dcid()), peer()) {
        RouteDecision::Removed { cid: c } => assert_eq!(c, cid),
        _ => panic!("rejection must remove the entry"),
    }
    assert_eq!(listener.connection_count(), 0);
    // A non-Initial datagram for the same id is now ignored ...
    match listener.route_datagram(handshake_packet(&client_dcid()), peer()) {
        RouteDecision::Dropped => {},
        _ => panic!("unknown non-Initial datagram must be dropped"),
    }
    // ... and an Initial one starts a fresh Incoming connection.
    match listener.route_datagram(initial_packet(&client_dcid()), peer()) {
        RouteDecision::NewIncoming { .. } => {},
        _ => panic!("unknown Initial datagram must open a connection"),
    }
}

#[test]
fn ignored_handshake_clears_the_entry() {
    let (mut listener, _key) = test_listener();
    let (state, _cid) = open_incoming(&mut listener);
    state.response_tx.try_send(HandshakeResponse::Ignored).ok().expect("capacity one");
    match listener.route_datagram(initial_packet(&client_dcid()), peer()) {
        RouteDecision::Removed { .. } => {},
        _ => panic!("an ignored connection must be removed"),
    }
    assert_eq!(listener.connection_count(), 0);
}

#[test]
fn establish_succeeds_at_most_once() {
    let rt = tokio::runtime::Builder::new_multi_thread().build().expect("runtime");
    let (mut listener, _key) = test_listener();
    let (state, cid) = open_incoming(&mut listener);
    let drop_tx = state.drop_connection.clone();
    let make_state = |engine: Engine| EstablishedState::<Engine> {
        connection_id: cid.clone(),
        connection: engine,
        tx_handle: rt.spawn(async { Ok::<(), QuicError>(()) }),
        drop_connection: drop_tx.clone(),
        rx_notify: Arc::new(tokio::sync::Notify::new()),
        tx_notify: Arc::new(tokio::sync::Notify::new()),
        tx_flushed: Arc::new(tokio::sync::Notify::new()),
    };
    let mut connection: Connection<Engine> = Connection::Incoming(state);
    assert!(!connection.is_established());
    assert!(connection.establish(make_state(1)).is_ok());
    assert!(connection.is_established());
    match connection.establish(make_state(2)) {
        Err(QuicError::InternalError) => {},
        _ => panic!("a second establish must fail with an internal error"),
    }
}

#[test]
fn drop_reaps_the_registry_entry_and_aborts_tx() {
    let rt = tokio::runtime::Builder::new_multi_thread().build().expect("runtime");
    let (mut listener, _key) = test_listener();
    let (state, cid) = open_incoming(&mut listener);
    // Drive the handshake to completion and transition the registry.
    state
        .response_tx
        .try_send(HandshakeResponse::Established(established_handle(&cid, 9)))
        .ok()
        .expect("capacity one");
    let (got_cid, handle) = match listener.route_datagram(initial_packet(&client_dcid()), peer()) {
        RouteDecision::HandshakeEstablished { cid, handle } => (cid, handle),
        _ => panic!("completion response must transition the handle"),
    };
    listener.commit_establish(got_cid, handle);
    assert!(listener.has_connection(&cid));
    // Build the caller-side Established connection with a long-lived task.
    let established = EstablishedState::<Engine> {
        connection_id: cid.clone(),
        connection: 9,
        tx_handle: rt.spawn(async {
            std::future::pending::<()>().await;
            Ok::<(), QuicError>(())
        }),
        drop_connection: state.drop_connection.clone(),
        rx_notify: Arc::new(tokio::sync::Notify::new()),
        tx_notify: Arc::new(tokio::sync::Notify::new()),
        tx_flushed: Arc::new(tokio::sync::Notify::new()),
    };
    let connection: Connection<Engine> = Connection::Established(established);
    connection.shutdown();
    // The transmit task reports the abort through its join handle.
    match connection {
        Connection::Established(s) => {
            let joined = rt.block_on(s.tx_handle);
            assert!(joined.expect_err("task was aborted").is_cancelled());
        },
        Connection::Incoming(_) => panic!("connection was established"),
    }
    // The next accept iteration reaps the entry.
    listener.reap_dropped();
    assert!(!listener.has_connection(&cid));
    assert_eq!(listener.connection_count(), 0);
}

#[test]
fn reap_ignores_unknown_ids() {
    let (mut listener, _key) = test_listener();
    let (state, cid) = open_incoming(&mut listener);
    state.drop_connection.try_send(vec![9, 9, 9]).expect("drop channel has room");
    listener.reap_dropped();
    assert!(listener.has_connection(&cid)); // a double drop removes nothing else
    assert_eq!(listener.connection_count(), 1);
}

#[test]
fn datagram_for_wire_dcid_hits_the_first_lookup() {
    // An entry filed directly under the wire id is found before derivation.
    let (mut listener, _key) = test_listener();
    listener.commit_establish(client_dcid(), established_handle(&client_dcid(), 3));
    match listener.route_datagram(initial_packet(&client_dcid()), peer()) {
        RouteDecision::DeliverEstablished { cid } => assert_eq!(cid, client_dcid()),
        _ => panic!("the wire id must be looked up first"),
    }
    assert_eq!(listener.connection_count(), 1);
}
