//! The message envelope: a self-describing binary encoding of a
//! (topic, opaque payload) pair.
//!
//! The wire format is private to this system's own client and server:
//! a 4-byte little-endian topic tag, an 8-byte little-endian payload
//! length, then the payload bytes. A single encoded envelope is meant to
//! fit within one bounded read buffer of `DEFAULT_SERVICE_BUFFER_SIZE`
//! bytes; that bound is a hard ceiling on payload size, not enforced by
//! the codec itself.

use vstd::prelude::*;

verus! {

/// Payloads larger than this cannot cross the wire in one read.
pub const DEFAULT_SERVICE_BUFFER_SIZE: usize = 65536;

/// Default TCP port on which the service listens.
pub const DEFAULT_SERVICE_SERVER_PORT: u32 = 10001;

/// Number of bytes of envelope header: 4-byte topic tag plus 8-byte
/// payload length.
pub const HEADER_LEN: usize = 12;

/// The enumerated tag identifying the semantic kind of a payload.
#[derive(Clone, Copy, Debug, PartialEq, Eq, Structural)]
pub enum RequestTopic {
    /// A transfer ticket: an opaque capability descriptor authorizing a
    /// point-to-point data-transfer session.
    MemesyncTicket,
    /// A content locator: a content identifier plus reachable addresses
    /// of a peer holding that content.
    CidRequest,
}

/// The (topic, payload) unit exchanged by the control-plane protocol.
/// The payload is an opaque byte sequence whose structure is owned by
/// the topic's handler, not by the envelope itself.
#[derive(Clone, Debug, PartialEq, Eq)]
pub struct Request {
    pub topic: RequestTopic,
    pub data: Vec<u8>,
}

/// Why a byte sequence failed to decode as an envelope.
#[derive(Clone, Copy, Debug, PartialEq, Eq, Structural)]
pub enum DecodeError {
    /// Fewer bytes than an envelope header.
    Truncated,
    /// The topic tag names no known topic.
    UnknownTopic,
    /// The declared payload length disagrees with the bytes present.
    LengthMismatch,
}

/// The wire tag of each topic.
pub open spec fn topic_tag(t: RequestTopic) -> u32 {
    match t {
        RequestTopic::MemesyncTicket => 0u32,
        RequestTopic::CidRequest => 1u32,
    }
}

/// The topic of each in-range wire tag.
pub open spec fn topic_of_tag(tag: u32) -> RequestTopic
    recommends
        tag <= 1,
{
    if tag == 0 {
        RequestTopic::MemesyncTicket
    } else {
        RequestTopic::CidRequest
    }
}

/// Little-endian bytes of a `u32`.
pub open spec fn u32_le(n: u32) -> Seq<u8> {
    seq![
        (n & 0xff) as u8,
        ((n >> 8) & 0xff) as u8,
        ((n >> 16) & 0xff) as u8,
        ((n >> 24) & 0xff) as u8,
    ]
}

/// The `u32` read from 4 little-endian bytes.
pub open spec fn u32_from_le(b: Seq<u8>) -> u32
    recommends
        b.len() == 4,
{
    (b[0] as u32) | (b[1] as u32) << 8 | (b[2] as u32) << 16 | (b[3] as u32) << 24
}

/// Little-endian bytes of a `u64`.
pub open spec fn u64_le(n: u64) -> Seq<u8> {
    seq![
        (n & 0xff) as u8,
        ((n >> 8) & 0xff) as u8,
        ((n >> 16) & 0xff) as u8,
        ((n >> 24) & 0xff) as u8,
        ((n >> 32) & 0xff) as u8,
        ((n >> 40) & 0xff) as u8,
        ((n >> 48) & 0xff) as u8,
        ((n >> 56) & 0xff) as u8,
    ]
}

/// The `u64` read from 8 little-endian bytes.
pub open spec fn u64_from_le(b: Seq<u8>) -> u64
    recommends
        b.len() == 8,
{
    (b[0] as u64) | (b[1] as u64) << 8 | (b[2] as u64) << 16 | (b[3] as u64) << 24
        | (b[4] as u64) << 32 | (b[5] as u64) << 40 | (b[6] as u64) << 48 | (b[7] as u64) << 56
}

/// The encoding of a (topic, payload) pair: topic tag, payload length,
/// payload bytes.
pub open spec fn spec_encode(t: RequestTopic, data: Seq<u8>) -> Seq<u8> {
    u32_le(topic_tag(t)) + u64_le(data.len() as u64) + data
}

/// What a byte sequence decodes to: the unique (topic, payload) pair it
/// encodes, or nothing.
pub open spec fn spec_decode(b: Seq<u8>) -> Option<(RequestTopic, Seq<u8>)> {
    if b.len() < 12 {
        None
    } else if u32_from_le(b.subrange(0, 4)) > 1 {
        None
    } else if u64_from_le(b.subrange(4, 12)) != b.len() - 12 {
        None
    } else {
        Some((topic_of_tag(u32_from_le(b.subrange(0, 4))), b.skip(12)))
    }
}

/// Which error a byte sequence that decodes to nothing is rejected
/// with: too short for a header, an out-of-range topic tag, or a
/// declared payload length that disagrees with the bytes present —
/// checked in that order.
pub open spec fn spec_decode_err(b: Seq<u8>) -> DecodeError
    recommends
        spec_decode(b) is None,
{
    if b.len() < 12 {
        DecodeError::Truncated
    } else if u32_from_le(b.subrange(0, 4)) > 1 {
        DecodeError::UnknownTopic
    } else {
        DecodeError::LengthMismatch
    }
}

proof fn lemma_u32_le_value_roundtrip(n: u32)
    ensures
        u32_from_le(u32_le(n)) == n,
{
    assert({
        &&& n & 0xff < 256
        &&& (n >> 8) & 0xff < 256
        &&& (n >> 16) & 0xff < 256
        &&& (n >> 24) & 0xff < 256
    }) by (bit_vector);
    assert(n == (n & 0xff) | ((n >> 8) & 0xff) << 8 | ((n >> 16) & 0xff) << 16 | ((n >> 24)
        & 0xff) << 24) by (bit_vector);
}

proof fn lemma_u32_le_bytes_roundtrip(b: Seq<u8>)
    requires
        b.len() == 4,
    ensures
        u32_le(u32_from_le(b)) == b,
{
    let b0 = b[0] as u32;
    let b1 = b[1] as u32;
    let b2 = b[2] as u32;
    let b3 = b[3] as u32;
    let x = u32_from_le(b);
    assert((b0 < 256 && b1 < 256 && b2 < 256 && b3 < 256 && x == b0 | b1 << 8 | b2 << 16 | b3
        << 24) ==> (b0 == x & 0xff && b1 == (x >> 8) & 0xff && b2 == (x >> 16) & 0xff && b3 == (x
        >> 24) & 0xff)) by (bit_vector);
    assert(u32_le(x) =~= b);
}

proof fn lemma_u64_le_value_roundtrip(n: u64)
    ensures
        u64_from_le(u64_le(n)) == n,
{
    assert({
        &&& n & 0xff < 256
        &&& (n >> 8) & 0xff < 256
        &&& (n >> 16) & 0xff < 256
        &&& (n >> 24) & 0xff < 256
        &&& (n >> 32) & 0xff < 256
        &&& (n >> 40) & 0xff < 256
        &&& (n >> 48) & 0xff < 256
        &&& (n >> 56) & 0xff < 256
    }) by (bit_vector);
    assert(n == (n & 0xff) | ((n >> 8) & 0xff) << 8 | ((n >> 16) & 0xff) << 16 | ((n >> 24)
        & 0xff) << 24 | ((n >> 32) & 0xff) << 32 | ((n >> 40) & 0xff) << 40 | ((n >> 48) & 0xff)
        << 48 | ((n >> 56) & 0xff) << 56) by (bit_vector);
}

proof fn lemma_u64_le_bytes_roundtrip(b: Seq<u8>)
    requires
        b.len() == 8,
    ensures
        u64_le(u64_from_le(b)) == b,
{
    let b0 = b[0] as u64;
    let b1 = b[1] as u64;
    let b2 = b[2] as u64;
    let b3 = b[3] as u64;
    let b4 = b[4] as u64;
    let b5 = b[5] as u64;
    let b6 = b[6] as u64;
    let b7 = b[7] as u64;
    let x = u64_from_le(b);
    assert((b0 < 256 && b1 < 256 && b2 < 256 && b3 < 256 && b4 < 256 && b5 < 256 && b6 < 256 && b7
        < 256 && x == b0 | b1 << 8 | b2 << 16 | b3 << 24 | b4 << 32 | b5 << 40 | b6 << 48 | b7
        << 56) ==> (b0 == x & 0xff && b1 == (x >> 8) & 0xff && b2 == (x >> 16) & 0xff && b3 == (x
        >> 24) & 0xff && b4 == (x >> 32) & 0xff && b5 == (x >> 40) & 0xff && b6 == (x >> 48) & 0xff
        && b7 == (x >> 56) & 0xff)) by (bit_vector);
    assert(u64_le(x) =~= b);
}

/// Decoding undoes encoding for every payload a `Vec` can hold, whatever
/// its size.
pub proof fn lemma_encode_decodes(t: RequestTopic, data: Seq<u8>)
    requires
        data.len() <= u64::MAX,
    ensures
        spec_decode(spec_encode(t, data)) == Some((t, data)),
{
    let b = spec_encode(t, data);
    assert(b.len() == 12 + data.len());
    assert(b.subrange(0, 4) =~= u32_le(topic_tag(t)));
    assert(b.subrange(4, 12) =~= u64_le(data.len() as u64));
    lemma_u32_le_value_roundtrip(topic_tag(t));
    lemma_u64_le_value_roundtrip(data.len() as u64);
    assert(b.skip(12) =~= data);
}

/// Round-trip law: decoding an encoding yields the pair that was
/// encoded, for every (topic, payload) pair whose payload fits the read
/// buffer beside the header — and such an encoding does fit the buffer.
pub proof fn lemma_round_trip(t: RequestTopic, data: Seq<u8>)
    requires
        data.len() <= DEFAULT_SERVICE_BUFFER_SIZE - HEADER_LEN,
    ensures
        spec_decode(spec_encode(t, data)) == Some((t, data)),
        spec_encode(t, data).len() <= DEFAULT_SERVICE_BUFFER_SIZE,
{
    lemma_encode_decodes(t, data);
}

/// Soundness of decoding: whenever a byte sequence decodes at all, it is
/// exactly the encoding of what it decoded to.
pub proof fn lemma_decode_sound(b: Seq<u8>)
    requires
        spec_decode(b) is Some,
    ensures
        spec_encode(spec_decode(b)->Some_0.0, spec_decode(b)->Some_0.1) == b,
{
    let (t, data) = spec_decode(b)->Some_0;
    lemma_u32_le_bytes_roundtrip(b.subrange(0, 4));
    lemma_u64_le_bytes_roundtrip(b.subrange(4, 12));
    assert(topic_tag(t) == u32_from_le(b.subrange(0, 4)));
    assert(data.len() as u64 == u64_from_le(b.subrange(4, 12)));
    assert(spec_encode(t, data) =~= b);
}

/// Rejection law: a byte sequence that decodes to nothing is not the
/// encoding of any (topic, payload) pair; decoding fails exactly on
/// invalid input, never on a corruption-free encoding.
pub proof fn lemma_decode_complete(b: Seq<u8>, t: RequestTopic, data: Seq<u8>)
    requires
        spec_decode(b) is None,
        data.len() <= u64::MAX,
    ensures
        spec_encode(t, data) != b,
{
    if spec_encode(t, data) == b {
        let e = spec_encode(t, data);
        assert(e.subrange(0, 4) =~= u32_le(topic_tag(t)));
        assert(e.subrange(4, 12) =~= u64_le(data.len() as u64));
        lemma_u32_le_value_roundtrip(topic_tag(t));
        lemma_u64_le_value_roundtrip(data.len() as u64);
        assert(u32_from_le(b.subrange(0, 4)) <= 1);
        assert(u64_from_le(b.subrange(4, 12)) == b.len() - 12);
    }
}

impl Request {
    /// Constructs an envelope carrying `data` under `topic`.
    pub fn new(topic: RequestTopic, data: Vec<u8>) -> (r: Self)
        ensures
            r.topic == topic,
            r.data == data,
    {
        Self { topic, data }
    }

    /// Encodes this envelope for the wire. Deterministic and total: every
    /// constructible envelope encodes, though only those with
    /// `data.len() + HEADER_LEN <= DEFAULT_SERVICE_BUFFER_SIZE` fit a
    /// single read on the receiving side.
    pub fn as_bytes(&self) -> (r: Vec<u8>)
        ensures
            r@ == spec_encode(self.topic, self.data@),
    {
        let tag: u32 = match self.topic {
            RequestTopic::MemesyncTicket => 0,
            RequestTopic::CidRequest => 1,
        };
        let len: u64 = self.data.len() as u64;
        let mut out: Vec<u8> = Vec::new();
        out.push((tag & 0xff) as u8);
        out.push(((tag >> 8) & 0xff) as u8);
        out.push(((tag >> 16) & 0xff) as u8);
        out.push(((tag >> 24) & 0xff) as u8);
        out.push((len & 0xff) as u8);
        out.push(((len >> 8) & 0xff) as u8);
        out.push(((len >> 16) & 0xff) as u8);
        out.push(((len >> 24) & 0xff) as u8);
        out.push(((len >> 32) & 0xff) as u8);
        out.push(((len >> 40) & 0xff) as u8);
        out.push(((len >> 48) & 0xff) as u8);
        out.push(((len >> 56) & 0xff) as u8);
        assert(out@ =~= u32_le(tag) + u64_le(len));
        let mut i: usize = 0;
        while i < self.data.len()
            invariant
                i <= self.data.len(),
                out@ == u32_le(tag) + u64_le(len) + self.data@.subrange(0, i as int),
            decreases self.data.len() - i,
        {
            out.push(self.data[i]);
            assert(out@ =~= u32_le(tag) + u64_le(len) + self.data@.subrange(0, i + 1 as int));
            i += 1;
        }
        assert(self.data@.subrange(0, self.data@.len() as int) =~= self.data@);
        out
    }

    /// Decodes a byte sequence received from the wire. Fails cleanly on
    /// truncated or structurally invalid input: `Ok` exactly on the
    /// encodings of envelopes, with each error naming what was wrong.
    pub fn from_bytes(bytes: &[u8]) -> (r: Result<Self, DecodeError>)
        ensures
            match r {
                Ok(req) => spec_decode(bytes@) == Some((req.topic, req.data@)),
                Err(e) => {
                    &&& spec_decode(bytes@) is None
                    &&& e == spec_decode_err(bytes@)
                },
            },
    {
        if bytes.len() < HEADER_LEN {
            return Err(DecodeError::Truncated);
        }
        let tag: u32 = (bytes[0] as u32) | (bytes[1] as u32) << 8 | (bytes[2] as u32) << 16 | (
        bytes[3] as u32) << 24;
        assert(tag == u32_from_le(bytes@.subrange(0, 4)));
        let len: u64 = (bytes[4] as u64) | (bytes[5] as u64) << 8 | (bytes[6] as u64) << 16 | (
        bytes[7] as u64) << 24 | (bytes[8] as u64) << 32 | (bytes[9] as u64) << 40 | (bytes[10]
            as u64) << 48 | (bytes[11] as u64) << 56;
        assert(len == u64_from_le(bytes@.subrange(4, 12)));
        if tag > 1 {
            return Err(DecodeError::UnknownTopic);
        }
        if len != (bytes.len() - HEADER_LEN) as u64 {
            return Err(DecodeError::LengthMismatch);
        }
        let topic = if tag == 0 {
            RequestTopic::MemesyncTicket
        } else {
            RequestTopic::CidRequest
        };
        let mut data: Vec<u8> = Vec::new();
        let mut i: usize = HEADER_LEN;
        while i < bytes.len()
            invariant
                HEADER_LEN <= i <= bytes@.len(),
                data@ == bytes@.subrange(HEADER_LEN as int, i as int),
            decreases bytes@.len() - i,
        {
            data.push(bytes[i]);
            assert(data@ =~= bytes@.subrange(HEADER_LEN as int, i + 1 as int));
            i += 1;
        }
        assert(data@ =~= bytes@.skip(HEADER_LEN as int));
        Ok(Self { topic, data })
    }
}

} // verus!
