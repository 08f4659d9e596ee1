//! The QUIC packet header as the listener reads it off the wire.
//!
//! The listener only routes: it needs the packet type and the destination
//! connection id, and it must be able to hand the parsed header on unchanged.
//! The parser keeps the raw first byte, so re-serializing an Initial header
//! reproduces the bytes that were parsed.

use vstd::prelude::*;
use crate::MAX_CONN_ID_LEN;

verus! {

/// The type of a QUIC packet, as far as the listener can tell before
/// decryption.
#[derive(Clone, Copy, PartialEq, Eq, Structural, Debug)]
pub enum PacketType {
    Initial,
    Retry,
    Handshake,
    ZeroRTT,
    VersionNegotiation,
    Short,
}

/// A parsed packet header. `first` is the raw first byte of the packet; its
/// low bits are still header-protected and are carried through untouched.
pub struct Header {
    pub first: u8,
    pub ty: PacketType,
    pub version: u32,
    pub dcid: Vec<u8>,
    pub scid: Vec<u8>,
    pub token: Option<Vec<u8>>,
    pub versions: Option<Vec<u32>>,
}

/// The form bit: set on long headers.
pub open spec fn is_long(first: u8) -> bool {
    first & 0x80 != 0
}

/// The two type bits of a long header's first byte.
pub open spec fn long_type_bits(first: u8) -> u8 {
    (first >> 4) & 0x03
}

/// The one wire version this listener speaks (QUIC v1).
pub open spec fn version_is_supported(version: u32) -> bool {
    version == 1
}

/// The big-endian 32-bit value at offset `i`.
pub open spec fn be32_at(b: Seq<u8>, i: int) -> u32 {
    ((b[i] as u32) << 24) | ((b[i + 1] as u32) << 16) | ((b[i + 2] as u32) << 8) | (b[i + 3] as u32)
}

/// The four big-endian bytes of `v`.
pub open spec fn be32_bytes(v: u32) -> Seq<u8> {
    seq![(v >> 24) as u8, (v >> 16) as u8, (v >> 8) as u8, v as u8]
}

/// How many bytes the variable-length integer starting with `first` occupies.
pub open spec fn varint_size_of(first: u8) -> int {
    if first < 0x40 {
        1
    } else if first < 0x80 {
        2
    } else if first < 0xc0 {
        4
    } else {
        8
    }
}

/// The value of the variable-length integer at offset `i`.
pub open spec fn varint_value_at(b: Seq<u8>, i: int) -> int {
    let m = (b[i] & 0x3f) as int;
    if b[i] < 0x40 {
        m
    } else if b[i] < 0x80 {
        m * 0x100 + b[i + 1]
    } else if b[i] < 0xc0 {
        m * 0x1000000 + b[i + 1] * 0x10000 + b[i + 2] * 0x100 + b[i + 3]
    } else {
        m * 0x100000000000000 + b[i + 1] * 0x1000000000000 + b[i + 2] * 0x10000000000 + b[i + 3]
            * 0x100000000 + b[i + 4] * 0x1000000 + b[i + 5] * 0x10000 + b[i + 6] * 0x100 + b[i + 7]
    }
}

/// The minimal wire encoding of the value `n` as a variable-length integer.
pub open spec fn spec_varint_min(n: int) -> Seq<u8> {
    if n < 0x40 {
        seq![n as u8]
    } else if n < 0x4000 {
        seq![(0x40 + n / 0x100) as u8, (n % 0x100) as u8]
    } else if n < 0x40000000 {
        seq![
            (0x80 + n / 0x1000000) as u8,
            ((n / 0x10000) % 0x100) as u8,
            ((n / 0x100) % 0x100) as u8,
            (n % 0x100) as u8,
        ]
    } else {
        seq![
            (0xc0 + n / 0x100000000000000) as u8,
            ((n / 0x1000000000000) % 0x100) as u8,
            ((n / 0x10000000000) % 0x100) as u8,
            ((n / 0x100000000) % 0x100) as u8,
            ((n / 0x1000000) % 0x100) as u8,
            ((n / 0x10000) % 0x100) as u8,
            ((n / 0x100) % 0x100) as u8,
            (n % 0x100) as u8,
        ]
    }
}

/// What every long header shares once parsed: the prefix bytes pin the
/// version and both connection ids.
pub open spec fn long_common(pkt: Seq<u8>, h: Header) -> bool {
    let dl = h.dcid@.len() as int;
    let sl = h.scid@.len() as int;
    &&& pkt.len() >= 7 + dl + sl
    &&& is_long(pkt[0])
    &&& h.first == pkt[0]
    &&& h.version == be32_at(pkt, 1)
    &&& pkt[5] as int == dl
    &&& h.dcid@ == pkt.subrange(6, 6 + dl)
    &&& pkt[6 + dl] as int == sl
    &&& h.scid@ == pkt.subrange(7 + dl, 7 + dl + sl)
    &&& (version_is_supported(h.version) ==> dl <= MAX_CONN_ID_LEN as int && sl
        <= MAX_CONN_ID_LEN as int)
}

/// The exact bytes of an Initial packet's header region: first byte, version,
/// both length-prefixed connection ids, then the token with its length.
pub open spec fn initial_wire(
    first: u8,
    version: u32,
    dcid: Seq<u8>,
    scid: Seq<u8>,
    lenv: Seq<u8>,
    token: Seq<u8>,
) -> Seq<u8> {
    seq![first] + be32_bytes(version) + seq![dcid.len() as u8] + dcid + seq![scid.len() as u8]
        + scid + lenv + token
}

/// What a successful parse pins down, by packet type. `n` is the number of
/// bytes of `pkt` the header region occupies.
pub open spec fn parse_ok(pkt: Seq<u8>, dcid_len: int, h: Header, n: int) -> bool {
    match h.ty {
        PacketType::Short => {
            &&& pkt.len() >= 1 + dcid_len
            &&& !is_long(pkt[0])
            &&& h.first == pkt[0]
            &&& h.version == 0
            &&& h.dcid@ == pkt.subrange(1, 1 + dcid_len)
            &&& h.scid@.len() == 0
            &&& h.token is None
            &&& h.versions is None
            &&& n == 1 + dcid_len
        },
        PacketType::VersionNegotiation => {
            let p = 7 + h.dcid@.len() as int + h.scid@.len() as int;
            &&& long_common(pkt, h)
            &&& h.version == 0
            &&& h.token is None
            &&& h.versions matches Some(vs) && {
                &&& (pkt.len() - p) % 4 == 0
                &&& vs@.len() == (pkt.len() - p) / 4
                &&& forall|k: int|
                    0 <= k < vs@.len() ==> vs@[k] == be32_at(pkt, p + 4 * k)
            }
            &&& n == pkt.len()
        },
        PacketType::Initial => {
            let p = 7 + h.dcid@.len() as int + h.scid@.len() as int;
            &&& long_common(pkt, h)
            &&& h.version != 0
            &&& long_type_bits(h.first) == 0
            &&& h.versions is None
            &&& h.token matches Some(t) && {
                let vs = varint_size_of(pkt[p]);
                &&& p + vs <= pkt.len()
                &&& varint_value_at(pkt, p) == t@.len()
                &&& n == p + vs + t@.len()
                &&& n <= pkt.len()
                &&& pkt.take(n) == initial_wire(
                    h.first,
                    h.version,
                    h.dcid@,
                    h.scid@,
                    pkt.subrange(p, p + vs),
                    t@,
                )
            }
        },
        PacketType::Retry => {
            let p = 7 + h.dcid@.len() as int + h.scid@.len() as int;
            &&& long_common(pkt, h)
            &&& h.version != 0
            &&& long_type_bits(h.first) == 3
            &&& h.versions is None
            &&& pkt.len() - p >= 16
            &&& h.token matches Some(t) && t@ == pkt.subrange(p, pkt.len() - 16)
            &&& n == pkt.len() - 16
        },
        PacketType::Handshake => {
            &&& long_common(pkt, h)
            &&& h.version != 0
            &&& long_type_bits(h.first) == 2
            &&& h.token is None
            &&& h.versions is None
            &&& n == 7 + h.dcid@.len() + h.scid@.len()
        },
        PacketType::ZeroRTT => {
            &&& long_common(pkt, h)
            &&& h.version != 0
            &&& long_type_bits(h.first) == 1
            &&& h.token is None
            &&& h.versions is None
            &&& n == 7 + h.dcid@.len() + h.scid@.len()
        },
    }
}

/// Whether `pkt` parses as a header at all, for the given short-header
/// connection-id length.
pub open spec fn spec_can_parse(pkt: Seq<u8>, dcid_len: int) -> bool {
    &&& pkt.len() >= 1
    &&& if !is_long(pkt[0]) {
        pkt.len() >= 1 + dcid_len
    } else {
        &&& pkt.len() >= 6
        &&& {
            let v = be32_at(pkt, 1);
            let dl = pkt[5] as int;
            &&& (version_is_supported(v) ==> dl <= MAX_CONN_ID_LEN as int)
            &&& pkt.len() >= 7 + dl
            &&& {
                let sl = pkt[6 + dl] as int;
                let p = 7 + dl + sl;
                &&& (version_is_supported(v) ==> sl <= MAX_CONN_ID_LEN as int)
                &&& pkt.len() >= p
                &&& if v == 0 {
                    (pkt.len() - p) % 4 == 0
                } else if long_type_bits(pkt[0]) == 0 {
                    &&& p < pkt.len()
                    &&& p + varint_size_of(pkt[p]) <= pkt.len()
                    &&& p + varint_size_of(pkt[p]) + varint_value_at(pkt, p) <= pkt.len()
                } else if long_type_bits(pkt[0]) == 3 {
                    pkt.len() - p >= 16
                } else {
                    true
                }
            }
        }
    }
}

/// Copies `pkt[off .. off + len]` out, refusing out-of-range reads.
fn read_bytes(pkt: &Vec<u8>, off: usize, len: usize) -> (r: Option<Vec<u8>>)
    ensures
        off + len <= pkt@.len() ==> (r matches Some(v) && v@ == pkt@.subrange(
            off as int,
            off as int + len as int,
        )),
        off + len > pkt@.len() ==> r is None,
{
    if off > pkt.len() || len > pkt.len() - off {
        return None;
    }
    let mut out: Vec<u8> = Vec::new();
    let mut i: usize = 0;
    proof {
        assert(out@ =~= pkt@.subrange(off as int, off as int));
    }
    while i < len
        invariant
            i <= len,
            off + len <= pkt@.len(),
            off + len <= usize::MAX,
            out@ == pkt@.subrange(off as int, off as int + i as int),
        decreases len - i,
    {
        out.push(pkt[off + i]);
        i = i + 1;
        proof {
            assert(out@ == pkt@.subrange(off as int, off as int + i as int));
        }
    }
    Some(out)
}

/// Reads the big-endian 32-bit value at `off`.
fn read_u32_be(pkt: &Vec<u8>, off: usize) -> (r: Option<u32>)
    ensures
        off + 4 <= pkt@.len() ==> (r matches Some(v) && v == be32_at(pkt@, off as int)),
        off + 4 > pkt@.len() ==> r is None,
{
    if off > pkt.len() || pkt.len() - off < 4 {
        return None;
    }
    let v: u32 = ((pkt[off] as u32) << 24) | ((pkt[off + 1] as u32) << 16) | ((pkt[off + 2] as u32)
        << 8) | (pkt[off + 3] as u32);
    Some(v)
}

/// Reads the variable-length integer at `off`; returns its value and size.
fn read_varint(pkt: &Vec<u8>, off: usize) -> (r: Option<(u64, usize)>)
    ensures
        r matches Some(vs) ==> {
            &&& off < pkt@.len()
            &&& vs.1 as int == varint_size_of(pkt@[off as int])
            &&& off + vs.1 <= pkt@.len()
            &&& vs.0 as int == varint_value_at(pkt@, off as int)
        },
        r is None ==> (off >= pkt@.len() || off as int + varint_size_of(
            pkt@[off as int],
        ) > pkt@.len()),
{
    if off >= pkt.len() {
        return None;
    }
    let first = pkt[off];
    let m: u64 = (first & 0x3f) as u64;
    if first < 0x40 {
        Some((m, 1))
    } else if first < 0x80 {
        if pkt.len() - off < 2 {
            return None;
        }
        Some((m * 0x100 + pkt[off + 1] as u64, 2))
    } else if first < 0xc0 {
        if pkt.len() - off < 4 {
            return None;
        }
        Some(
            (
                m * 0x1000000 + (pkt[off + 1] as u64) * 0x10000 + (pkt[off + 2] as u64) * 0x100 + (
                pkt[off + 3] as u64),
                4,
            ),
        )
    } else {
        if pkt.len() - off < 8 {
            return None;
        }
        Some(
            (
                m * 0x100000000000000 + (pkt[off + 1] as u64) * 0x1000000000000 + (pkt[off
                    + 2] as u64) * 0x10000000000 + (pkt[off + 3] as u64) * 0x100000000 + (pkt[off
                    + 4] as u64) * 0x1000000 + (pkt[off + 5] as u64) * 0x10000 + (pkt[off
                    + 6] as u64) * 0x100 + (pkt[off + 7] as u64),
                8,
            ),
        )
    }
}

/// Parses the header region of `pkt`. `dcid_len` is the fixed connection-id
/// length this listener uses for short headers. On success the header and the
/// region's length in bytes come back; a malformed header comes back as
/// `None` and the caller drops the datagram.
pub fn parse_header(pkt: &Vec<u8>, dcid_len: usize) -> (r: Option<(Header, usize)>)
    ensures
        r matches Some(hn) ==> parse_ok(pkt@, dcid_len as int, hn.0, hn.1 as int),
        (r is Some) == spec_can_parse(pkt@, dcid_len as int),
{
    if pkt.len() == 0 {
        return None;
    }
    let first = pkt[0];
    if first & 0x80 == 0 {
        // Short header: a fixed-length destination id follows the first byte.
        let dcid = match read_bytes(pkt, 1, dcid_len) {
            Some(d) => d,
            None => {
                return None;
            },
        };
        let h = Header {
            first,
            ty: PacketType::Short,
            version: 0,
            dcid,
            scid: Vec::new(),
            token: None,
            versions: None,
        };
        return Some((h, 1 + dcid_len));
    }
    // Long header: version, then both length-prefixed connection ids.
    let version = match read_u32_be(pkt, 1) {
        Some(v) => v,
        None => {
            return None;
        },
    };
    if pkt.len() < 6 {
        return None;
    }
    let dl = pkt[5] as usize;
    if version == 1 && dl > MAX_CONN_ID_LEN {
        return None;
    }
    let dcid = match read_bytes(pkt, 6, dl) {
        Some(d) => d,
        None => {
            return None;
        },
    };
    if pkt.len() < 7 + dl {
        return None;
    }
    let sl = pkt[6 + dl] as usize;
    if version == 1 && sl > MAX_CONN_ID_LEN {
        return None;
    }
    let scid = match read_bytes(pkt, 7 + dl, sl) {
        Some(s) => s,
        None => {
            return None;
        },
    };
    let p: usize = 7 + dl + sl;
    if version == 0 {
        // Version negotiation: the rest is a list of 32-bit versions.
        if (pkt.len() - p) % 4 != 0 {
            return None;
        }
        let count: usize = (pkt.len() - p) / 4;
        proof {
            let rem = pkt@.len() - p;
            assert(4 * (rem / 4) == rem) by (nonlinear_arith)
                requires
                    rem >= 0 && rem % 4 == 0,
            ;
        }
        let mut versions: Vec<u32> = Vec::new();
        let mut k: usize = 0;
        while k < count
            invariant
                k <= count,
                p + 4 * count <= pkt@.len(),
                p + 4 * count <= usize::MAX,
                versions@.len() == k,
                forall|j: int| 0 <= j < k ==> versions@[j] == be32_at(pkt@, p + 4 * j),
            decreases count - k,
        {
            proof {
                assert(p + 4 * k + 4 <= p + 4 * count);
            }
            let v = match read_u32_be(pkt, p + 4 * k) {
                Some(v) => v,
                None => {
                    return None;
                },
            };
            versions.push(v);
            k = k + 1;
        }
        proof {
            assert((pkt@.len() - p) % 4 == 0);
            assert(count as int == (pkt@.len() - p) / 4);
        }
        let h = Header {
            first,
            ty: PacketType::VersionNegotiation,
            version: 0,
            dcid,
            scid,
            token: None,
            versions: Some(versions),
        };
        return Some((h, pkt.len()));
    }
    let tb = (first >> 4) & 0x03;
    if tb == 0 {
        // Initial: a length-prefixed address-verification token follows.
        let (tlen, vs) = match read_varint(pkt, p) {
            Some(tv) => tv,
            None => {
                return None;
            },
        };
        if tlen > (pkt.len() - p - vs) as u64 {
            return None;
        }
        let tlen: usize = tlen as usize;
        let token = match read_bytes(pkt, p + vs, tlen) {
            Some(t) => t,
            None => {
                return None;
            },
        };
        let n: usize = p + vs + tlen;
        let h = Header {
            first,
            ty: PacketType::Initial,
            version,
            dcid,
            scid,
            token: Some(token),
            versions: None,
        };
        proof {
            lemma_initial_take(pkt@, h, n as int);
        }
        return Some((h, n));
    }
    if tb == 3 {
        // Retry: the token is everything up to the 16-byte integrity tag.
        if pkt.len() - p < 16 {
            return None;
        }
        let tlen: usize = pkt.len() - p - 16;
        let token = match read_bytes(pkt, p, tlen) {
            Some(t) => t,
            None => {
                return None;
            },
        };
        let h = Header {
            first,
            ty: PacketType::Retry,
            version,
            dcid,
            scid,
            token: Some(token),
            versions: None,
        };
        return Some((h, pkt.len() - 16));
    }
    proof {
        let f = first;
        assert(((f >> 4) & 0x03) < 4) by (bit_vector);
    }
    let ty = if tb == 1 {
        PacketType::ZeroRTT
    } else {
        PacketType::Handshake
    };
    let h = Header { first, ty, version, dcid, scid, token: None, versions: None };
    Some((h, p))
}

/// The header region of an Initial packet decomposes into its fields.
proof fn lemma_initial_take(pkt: Seq<u8>, h: Header, n: int)
    requires
        long_common(pkt, h),
        h.token matches Some(t) && {
            let p = 7 + h.dcid@.len() as int + h.scid@.len() as int;
            let vs = varint_size_of(pkt[p]);
            &&& n == p + vs + t@.len()
            &&& n <= pkt.len()
            &&& t@ == pkt.subrange(p + vs, n)
        },
    ensures
        h.token matches Some(t) && {
            let p = 7 + h.dcid@.len() as int + h.scid@.len() as int;
            let vs = varint_size_of(pkt[p]);
            pkt.take(n) == initial_wire(
                h.first,
                h.version,
                h.dcid@,
                h.scid@,
                pkt.subrange(p, p + vs),
                t@,
            )
        },
{
    let t = h.token->Some_0;
    let dl = h.dcid@.len() as int;
    let sl = h.scid@.len() as int;
    let p = 7 + dl + sl;
    let vs = varint_size_of(pkt[p]);
    let b1 = pkt[1];
    let b2 = pkt[2];
    let b3 = pkt[3];
    let b4 = pkt[4];
    let v = h.version;
    assert((v >> 24) as u8 == b1 && (v >> 16) as u8 == b2 && (v >> 8) as u8 == b3 && v as u8 == b4)
        by (bit_vector)
        requires
            v == ((b1 as u32) << 24) | ((b2 as u32) << 16) | ((b3 as u32) << 8) | (b4 as u32),
    ;
    let wire = initial_wire(h.first, h.version, h.dcid@, h.scid@, pkt.subrange(p, p + vs), t@);
    assert(wire.len() == n);
    assert forall|j: int| 0 <= j < n implies pkt.take(n)[j] == wire[j] by {
        assert(pkt.take(n)[j] == pkt[j]);
        if j == 0 {
            assert(wire[0] == h.first);
        } else if j < 5 {
            assert(wire[j] == be32_bytes(h.version)[j - 1]);
        } else if j == 5 {
            assert(wire[5] == h.dcid@.len() as u8);
        } else if j < 6 + dl {
            assert(wire[j] == h.dcid@[j - 6]);
            assert(h.dcid@[j - 6] == pkt.subrange(6, 6 + dl)[j - 6]);
        } else if j == 6 + dl {
            assert(wire[j] == h.scid@.len() as u8);
        } else if j < p {
            assert(wire[j] == h.scid@[j - (7 + dl)]);
            assert(h.scid@[j - (7 + dl)] == pkt.subrange(7 + dl, 7 + dl + sl)[j - (7 + dl)]);
        } else if j < p + vs {
            assert(wire[j] == pkt.subrange(p, p + vs)[j - p]);
        } else {
            assert(wire[j] == t@[j - (p + vs)]);
            assert(t@[j - (p + vs)] == pkt.subrange(p + vs, n)[j - (p + vs)]);
        }
    }
    assert(pkt.take(n) =~= wire);
}

/// Serializes an Initial packet's header region. With a well-formed header —
/// as `parse_header` returns it — the output is exactly the wire form, with
/// the token length minimally encoded.
pub fn serialize_initial_header(h: &Header) -> (r: Vec<u8>)
    requires
        h.ty is Initial,
        h.dcid@.len() <= 255,
        h.scid@.len() <= 255,
        h.token matches Some(t) && t@.len() < 0x4000000000000000,
    ensures
        r@ == initial_wire(
            h.first,
            h.version,
            h.dcid@,
            h.scid@,
            spec_varint_min(h.token->Some_0@.len() as int),
            h.token->Some_0@,
        ),
{
    let mut out: Vec<u8> = Vec::new();
    out.push(h.first);
    out.push((h.version >> 24) as u8);
    out.push((h.version >> 16) as u8);
    out.push((h.version >> 8) as u8);
    out.push(h.version as u8);
    out.push(h.dcid.len() as u8);
    append_bytes(&mut out, &h.dcid);
    out.push(h.scid.len() as u8);
    append_bytes(&mut out, &h.scid);
    let token = match &h.token {
        Some(t) => t,
        None => {
            proof {
                assert(false);
            }
            return out;
        },
    };
    let lenv = encode_varint(token.len() as u64);
    append_bytes(&mut out, &lenv);
    append_bytes(&mut out, token);
    proof {
        let wire = initial_wire(
            h.first,
            h.version,
            h.dcid@,
            h.scid@,
            spec_varint_min(h.token->Some_0@.len() as int),
            h.token->Some_0@,
        );
        assert(out@ =~= wire);
    }
    out
}

/// Appends all of `src` to `dst`.
fn append_bytes(dst: &mut Vec<u8>, src: &Vec<u8>)
    ensures
        final(dst)@ == old(dst)@ + src@,
{
    let mut i: usize = 0;
    proof {
        assert(dst@ =~= old(dst)@ + src@.take(0));
    }
    while i < src.len()
        invariant
            i <= src@.len(),
            dst@ == old(dst)@ + src@.take(i as int),
        decreases src@.len() - i,
    {
        dst.push(src[i]);
        i = i + 1;
        proof {
            assert(dst@ =~= old(dst)@ + src@.take(i as int));
        }
    }
    proof {
        assert(src@.take(src@.len() as int) =~= src@);
    }
}

/// Writes `n` as a minimally encoded variable-length integer.
fn encode_varint(n: u64) -> (r: Vec<u8>)
    requires
        n < 0x4000000000000000,
    ensures
        r@ == spec_varint_min(n as int),
{
    let mut out: Vec<u8> = Vec::new();
    if n < 0x40 {
        out.push(n as u8);
    } else if n < 0x4000 {
        out.push(0x40 + (n / 0x100) as u8);
        out.push((n % 0x100) as u8);
    } else if n < 0x40000000 {
        out.push(0x80 + (n / 0x1000000) as u8);
        out.push(((n / 0x10000) % 0x100) as u8);
        out.push(((n / 0x100) % 0x100) as u8);
        out.push((n % 0x100) as u8);
    } else {
        out.push(0xc0 + (n / 0x100000000000000) as u8);
        out.push(((n / 0x1000000000000) % 0x100) as u8);
        out.push(((n / 0x10000000000) % 0x100) as u8);
        out.push(((n / 0x100000000) % 0x100) as u8);
        out.push(((n / 0x1000000) % 0x100) as u8);
        out.push(((n / 0x10000) % 0x100) as u8);
        out.push(((n / 0x100) % 0x100) as u8);
        out.push((n % 0x100) as u8);
    }
    proof {
        assert(out@ =~= spec_varint_min(n as int));
    }
    out
}

/// Law: parsing an Initial packet and serializing the parsed header yields
/// the byte-identical header region, provided the packet encoded the token
/// length minimally (a non-minimal sender, e.g. a two-byte encoding of the
/// length five, re-serializes shorter).
pub proof fn lemma_initial_header_round_trip(pkt: Seq<u8>, dcid_len: int, h: Header, n: int)
    requires
        parse_ok(pkt, dcid_len, h, n),
        h.ty is Initial,
        ({
            let p = 7 + h.dcid@.len() as int + h.scid@.len() as int;
            let vs = varint_size_of(pkt[p]);
            pkt.subrange(p, p + vs) == spec_varint_min(h.token->Some_0@.len() as int)
        }),
    ensures
        initial_wire(
            h.first,
            h.version,
            h.dcid@,
            h.scid@,
            spec_varint_min(h.token->Some_0@.len() as int),
            h.token->Some_0@,
        ) == pkt.take(n),
{
}

} // verus!
