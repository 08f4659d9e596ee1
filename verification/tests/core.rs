//! Burst-controller, id-derivation and header-codec behaviour on concrete
//! values.

use quic_listener::MAX_CONN_ID_LEN;
use quic_listener::MAX_IPV6_BUF_SIZE;
use quic_listener::burst::TxBurst;
use quic_listener::crypto::Crypto;
use quic_listener::header::PacketType;
use quic_listener::header::parse_header;
use quic_listener::header::serialize_initial_header;

fn initial_packet(dcid: &[u8], scid: &[u8], payload_len: usize) -> Vec<u8> {
    let mut p = vec![0xC0u8];
    p.extend_from_slice(&[0, 0, 0, 1]);
    p.push(dcid.len() as u8);
    p.extend_from_slice(dcid);
    p.push(scid.len() as u8);
    p.extend_from_slice(scid);
    p.push(0); // empty token, minimal varint
    p.extend_from_slice(&vec![0x11u8; payload_len]);
    p
}

#[test]
fn burst_shrinks_on_rising_loss() {
    // Loss rate 0.001 then 0.0025: only the second rise exceeds 0.001.
    let mut b = TxBurst::new(1350);
    let r1 = b.max_send_burst(1000, 1, MAX_IPV6_BUF_SIZE);
    assert_eq!(r1, 65487 / 1350 * 1350); // ceiling still 65487
    let r2 = b.max_send_burst(2000, 5, MAX_IPV6_BUF_SIZE);
    let shrunk = 65487 / 4 * 3; // 49113
    assert!(shrunk >= 10 * 1350);
    assert_eq!(r2, shrunk / 1350 * 1350); // 48600
    assert_eq!(r2 % 1350, 0);
}

#[test]
fn burst_never_falls_under_ten_datagrams() {
    let mut b = TxBurst::new(1350);
    let mut lost: usize = 2;
    let mut last = usize::MAX;
    for _ in 0..24 {
        // Each rate doubles, so every observation is a rise of more than 0.001.
        let r = b.max_send_burst(1000, lost, usize::MAX);
        assert_eq!(r % 1350, 0);
        assert!(r >= 10 * 1350);
        assert!(r <= last);
        last = r;
        lost = lost.saturating_mul(2);
    }
    assert_eq!(last, 10 * 1350); // clamped at ten datagrams
}

#[test]
fn burst_respects_send_quantum() {
    let mut b = TxBurst::new(1350);
    let r = b.max_send_burst(0, 0, 5000);
    assert_eq!(r, 5000 / 1350 * 1350); // 4050
    let r0 = b.max_send_burst(0, 0, 0);
    assert_eq!(r0, 0);
}

#[test]
fn gen_cid_is_deterministic_and_matches_hmac() {
    let key = vec![0xABu8; 32];
    let crypto = Crypto::from_key_bytes(key.clone());
    let dcid = vec![0x01, 0x02, 0x03, 0x04, 0x05, 0x06, 0x07, 0x08];
    let a = crypto.gen_cid(&dcid);
    let b = crypto.gen_cid(&dcid);
    assert_eq!(a, b); // deterministic under a fixed key
    assert_eq!(a.len(), MAX_CONN_ID_LEN);
    assert_ne!(a, dcid); // derivation is not the identity and no round trip
    // Cross-check against the HMAC computed independently.
    let rkey = ring::hmac::Key::new(ring::hmac::HMAC_SHA256, &key);
    let tag = ring::hmac::sign(&rkey, &dcid);
    assert_eq!(&a[..], &tag.as_ref()[..MAX_CONN_ID_LEN]);
    // A different client id derives a different canonical id.
    let other = crypto.gen_cid(&vec![0x01, 0x02, 0x03, 0x04, 0x05, 0x06, 0x07, 0x09]);
    assert_ne!(a, other);
}

#[test]
fn initial_header_round_trips_byte_identically() {
    let dcid = [0x01, 0x02, 0x03, 0x04, 0x05, 0x06, 0x07, 0x08];
    let scid = [0xAA, 0xBB];
    let pkt = initial_packet(&dcid, &scid, 30);
    let (h, n) = parse_header(&pkt, MAX_CONN_ID_LEN).expect("well-formed Initial");
    assert!(matches!(h.ty, PacketType::Initial));
    assert_eq!(h.version, 1);
    assert_eq!(&h.dcid[..], &dcid[..]);
    assert_eq!(&h.scid[..], &scid[..]);
    assert_eq!(h.token.as_deref(), Some(&[][..]));
    assert_eq!(n, 7 + dcid.len() + scid.len() + 1);
    let out = serialize_initial_header(&h);
    assert_eq!(&out[..], &pkt[..n]); // byte-identical header region
}

#[test]
fn initial_header_with_token_round_trips() {
    let mut p = vec![0xC3u8]; // low bits carry protected packet-number bits
    p.extend_from_slice(&[0, 0, 0, 1]);
    p.push(4);
    p.extend_from_slice(&[9, 9, 9, 9]);
    p.push(0);
    p.push(3); // token of three bytes, minimal varint
    p.extend_from_slice(&[0xDE, 0xAD, 0xBF]);
    p.extend_from_slice(&[0u8; 50]);
    let (h, n) = parse_header(&p, MAX_CONN_ID_LEN).expect("well-formed Initial");
    assert!(matches!(h.ty, PacketType::Initial));
    assert_eq!(h.first, 0xC3);
    assert_eq!(h.token.as_deref(), Some(&[0xDE, 0xAD, 0xBF][..]));
    assert_eq!(n, 7 + 4 + 0 + 1 + 3);
    let out = serialize_initial_header(&h);
    assert_eq!(&out[..], &p[..n]);
}

#[test]
fn short_header_reads_fixed_length_dcid() {
    let mut p = vec![0x40u8];
    p.extend_from_slice(&[7u8; MAX_CONN_ID_LEN]);
    p.extend_from_slice(&[1, 2, 3]);
    let (h, n) = parse_header(&p, MAX_CONN_ID_LEN).expect("short header");
    assert!(matches!(h.ty, PacketType::Short));
    assert_eq!(h.dcid, vec![7u8; MAX_CONN_ID_LEN]);
    assert_eq!(h.version, 0);
    assert_eq!(n, 1 + MAX_CONN_ID_LEN);
}

#[test]
fn malformed_headers_are_rejected() {
    // Empty datagram.
    assert!(parse_header(&vec![], MAX_CONN_ID_LEN).is_none());
    // Short header shorter than one byte plus the fixed id length.
    assert!(parse_header(&vec![0x40u8; 10], MAX_CONN_ID_LEN).is_none());
    // Long header truncated inside the version field.
    assert!(parse_header(&vec![0xC0, 0, 0], MAX_CONN_ID_LEN).is_none());
    // An over-long destination id on a supported version.
    let mut p = vec![0xC0u8, 0, 0, 0, 1];
    p.push(21);
    p.extend_from_slice(&[0u8; 40]);
    assert!(parse_header(&p, MAX_CONN_ID_LEN).is_none());
    // A truncated token on an Initial packet.
    let mut p = vec![0xC0u8, 0, 0, 0, 1];
    p.push(1);
    p.push(0x55);
    p.push(0);
    p.push(9); // announces nine token bytes
    p.extend_from_slice(&[0u8; 4]); // but only four follow
    assert!(parse_header(&p, MAX_CONN_ID_LEN).is_none());
}

#[test]
fn version_negotiation_lists_versions() {
    let mut p = vec![0x80u8, 0, 0, 0, 0];
    p.push(2);
    p.extend_from_slice(&[1, 2]);
    p.push(0);
    p.extend_from_slice(&[0, 0, 0, 1, 0xFF, 0, 0, 29]);
    let (h, n) = parse_header(&p, MAX_CONN_ID_LEN).expect("version negotiation");
    assert!(matches!(h.ty, PacketType::VersionNegotiation));
    assert_eq!(h.versions, Some(vec![1, 0xFF00001D]));
    assert_eq!(n, p.len());
    // A trailing fragment of a version is malformed.
    p.push(0);
    assert!(parse_header(&p, MAX_CONN_ID_LEN).is_none());
}

#[test]
fn retry_token_excludes_integrity_tag() {
    let mut p = vec![0xF0u8, 0, 0, 0, 1]; // type bits 11: Retry
    p.push(1);
    p.push(0x55);
    p.push(0);
    p.extend_from_slice(&[0xAB; 5]); // token
    p.extend_from_slice(&[0xEE; 16]); // integrity tag
    let (h, n) = parse_header(&p, MAX_CONN_ID_LEN).expect("retry");
    assert!(matches!(h.ty, PacketType::Retry));
    assert_eq!(h.token.as_deref(), Some(&[0xAB; 5][..]));
    assert_eq!(n, p.len() - 16);
    let short = p[..12].to_vec(); // no room for the integrity tag
    assert!(parse_header(&short, MAX_CONN_ID_LEN).is_none());
}

#[test]
fn unsupported_version_skips_cid_length_cap() {
    // Version 5 is unknown: a 33-byte destination id passes the parser.
    let mut p = vec![0xC0u8, 0, 0, 0, 5];
    p.push(33);
    p.extend_from_slice(&[3u8; 33]);
    p.push(0);
    p.push(0);
    let (h, _n) = parse_header(&p, MAX_CONN_ID_LEN).expect("unknown version");
    assert!(matches!(h.ty, PacketType::Initial));
    assert_eq!(h.dcid.len(), 33);
}

#[test]
fn header_keeps_raw_first_byte() {
    let dcid = [1u8; 3];
    let mut pkt = initial_packet(&dcid, &[], 10);
    pkt[0] = 0xC9; // protected low bits must survive the round trip
    let (h, n) = parse_header(&pkt, MAX_CONN_ID_LEN).expect("initial");
    assert_eq!(h.first, 0xC9);
    let out = serialize_initial_header(&h);
    assert_eq!(&out[..], &pkt[..n]);
}

#[test]
fn burst_accepts_the_largest_datagram_size() {
    // Ten datagrams of 6548 bytes still fit under the initial ceiling.
    let mut b = TxBurst::new(6548);
    let r = b.max_send_burst(1, 1, MAX_IPV6_BUF_SIZE);
    // Rate 1.0 is a rise over 0: the ceiling shrinks but stays >= 10 * 6548.
    assert_eq!(r, 65480 / 6548 * 6548);
    assert!(r >= 10 * 6548);
}

#[test]
fn two_byte_token_length_round_trips() {
    let mut p = vec![0xC0u8, 0, 0, 0, 1];
    p.push(1);
    p.push(0x44);
    p.push(0);
    p.extend_from_slice(&[0x40, 0x40]); // token length 64, minimal two bytes
    p.extend_from_slice(&[0x77u8; 64]);
    p.extend_from_slice(&[0u8; 9]);
    let (h, n) = parse_header(&p, MAX_CONN_ID_LEN).expect("initial with long token");
    assert_eq!(h.token.as_ref().map(|t| t.len()), Some(64));
    assert_eq!(n, 7 + 1 + 0 + 2 + 64);
    let out = serialize_initial_header(&h);
    assert_eq!(&out[..], &p[..n]);
}

#[test]
fn non_minimal_token_length_reserializes_shorter() {
    // The length five fits one varint byte; this sender spent two. The
    // parser accepts it, but re-serialization uses the minimal form, so the
    // header region is not byte-identical for such input.
    let mut p = vec![0xC0u8, 0, 0, 0, 1];
    p.push(1);
    p.push(0x44);
    p.push(0);
    p.extend_from_slice(&[0x40, 0x05]); // token length 5 in two bytes
    p.extend_from_slice(&[0x66u8; 5]);
    let (h, n) = parse_header(&p, MAX_CONN_ID_LEN).expect("non-minimal varint parses");
    assert_eq!(h.token.as_ref().map(|t| t.len()), Some(5));
    let out = serialize_initial_header(&h);
    assert_eq!(out.len(), n - 1); // one byte shorter than the wire form
    assert_ne!(&out[..], &p[..n - 1]);
}

#[test]
fn generated_key_derives_stable_ids() {
    let crypto = Crypto::generate().expect("entropy source available");
    let dcid = vec![0x10, 0x20, 0x30];
    let a = crypto.gen_cid(&dcid);
    let b = crypto.gen_cid(&dcid);
    assert_eq!(a, b);
    assert_eq!(a.len(), MAX_CONN_ID_LEN);
    assert_ne!(a, dcid);
}
