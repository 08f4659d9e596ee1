//! Derivation of the server-chosen connection id.
//!
//! The listener draws one 256-bit HMAC-SHA256 key when it is built. The id
//! under which it files a connection is the first `MAX_CONN_ID_LEN` bytes of
//! `HMAC(key, client_dcid)`: a stable, stateless mapping from the client's
//! chosen destination id to the listener's canonical id.

use vstd::prelude::*;
use crate::{MAX_CONN_ID_LEN, QuicError};

verus! {

/// The HMAC-SHA256 tag of `data` under `key`: a function of the key bytes and
/// the message alone.
pub uninterp spec fn hmac_sha256(key: Seq<u8>, data: Seq<u8>) -> Seq<u8>;

/// Relies on `ring::hmac::Key::new` and `ring::hmac::sign` (HMAC_SHA256):
/// the 32-byte tag depends on the key bytes and the message alone. Signing
/// panics only beyond the digest's input limit, which the precondition
/// excludes.
#[verifier::external_body]
fn hmac_sha256_sign(key: &Vec<u8>, data: &Vec<u8>) -> (r: Vec<u8>)
    requires
        data@.len() < 0x2000000000000000,
    ensures
        r@ == hmac_sha256(key@, data@),
        r@.len() == 32,
{
    let k = ring::hmac::Key::new(ring::hmac::HMAC_SHA256, key.as_slice());
    let tag = ring::hmac::sign(&k, data.as_slice());
    tag.as_ref().to_vec()
}

/// Relies on `ring::rand::SystemRandom` and `ring::rand::SecureRandom::fill`:
/// on success the buffer is filled; nothing is assumed about the drawn values.
#[verifier::external_body]
fn random_bytes_32() -> (r: Result<Vec<u8>, QuicError>)
    ensures
        r matches Ok(k) ==> k@.len() == 32,
{
    let rng = ring::rand::SystemRandom::new();
    let mut buf = vec![0u8; 32];
    match ring::rand::SecureRandom::fill(&rng, &mut buf) {
        Ok(()) => Ok(buf),
        Err(_) => Err(QuicError::InternalError),
    }
}

/// The id the listener files a connection under: the first `MAX_CONN_ID_LEN`
/// bytes of the tag of the client's destination id under `key`.
pub open spec fn derived_cid(key: Seq<u8>, client_dcid: Seq<u8>) -> Seq<u8> {
    hmac_sha256(key, client_dcid).take(MAX_CONN_ID_LEN as int)
}

/// The listener's signing state: one key for the lifetime of the listener.
pub struct Crypto {
    key: Vec<u8>,
}

impl Crypto {
    /// The key bytes the derivation runs under.
    pub closed spec fn key_bytes(self) -> Seq<u8> {
        self.key@
    }

    pub open spec fn wf(self) -> bool {
        self.key_bytes().len() == 32
    }

    /// Draws a fresh 256-bit key. Fails only when the system's entropy source
    /// does, which is reported as an internal error.
    pub fn generate() -> (r: Result<Crypto, QuicError>)
        ensures
            r matches Ok(c) ==> c.wf(),
            r matches Err(e) ==> e is InternalError,
    {
        match random_bytes_32() {
            Ok(key) => Ok(Crypto { key }),
            Err(_) => Err(QuicError::InternalError),
        }
    }

    /// Builds a crypto state from explicit key bytes, for callers that must
    /// pin the key, such as tests.
    pub fn from_key_bytes(key: Vec<u8>) -> (r: Crypto)
        requires
            key@.len() == 32,
        ensures
            r.wf(),
            r.key_bytes() == key@,
    {
        Crypto { key }
    }

    /// Derives the canonical connection id for a client-chosen destination id.
    /// Deterministic: for a fixed key, equal inputs give equal ids.
    pub fn gen_cid(&self, client_dcid: &Vec<u8>) -> (r: Vec<u8>)
        requires
            self.wf(),
            client_dcid@.len() < 0x2000000000000000,
        ensures
            r@ == derived_cid(self.key_bytes(), client_dcid@),
            r@.len() == MAX_CONN_ID_LEN as int,
    {
        let tag = hmac_sha256_sign(&self.key, client_dcid);
        let mut cid: Vec<u8> = Vec::new();
        let mut i: usize = 0;
        while i < MAX_CONN_ID_LEN
            invariant
                i <= MAX_CONN_ID_LEN,
                tag@.len() == 32,
                tag@ == hmac_sha256(self.key_bytes(), client_dcid@),
                cid@ == tag@.take(i as int),
            decreases MAX_CONN_ID_LEN - i,
        {
            cid.push(tag[i]);
            i = i + 1;
            proof {
                assert(cid@ == tag@.take(i as int));
            }
        }
        cid
    }
}

/// Law: connection-id derivation is deterministic. It is not a round trip —
/// nothing maps a derived id back to the client's — but a fixed key and a
/// fixed client id always yield the same canonical id.
pub proof fn lemma_gen_cid_deterministic(key: Seq<u8>, dcid_a: Seq<u8>, dcid_b: Seq<u8>)
    requires
        dcid_a == dcid_b,
    ensures
        derived_cid(key, dcid_a) == derived_cid(key, dcid_b),
{
}

} // verus!
