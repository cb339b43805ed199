//! The Source RCON packet codec.
//!
//! A packet on the wire is `size | request_id | packet_type | payload | 0 | 0`,
//! where the three leading fields are little-endian 32-bit integers and
//! `size` counts everything after itself: 4 (id) + 4 (type) + payload + 2
//! null terminators.  Decoding rejects a size outside `[10, 4096]`, strips
//! trailing zero bytes from the payload and decodes the rest as UTF-8.

use vstd::prelude::*;
use vstd::utf8::valid_utf8;
use vstd::utf8::decode_utf8;
use vstd::utf8::encode_utf8;
use vstd::utf8::encode_scalar;

use crate::text::contains_seq;
use crate::text::str_contains;

verus! {

/// Packet type of a login (authentication) request.
pub const RCON_TYPE_LOGIN: i32 = 3;

/// Packet type of a command request.
pub const RCON_TYPE_COMMAND: i32 = 2;

/// Packet type of a server response.
pub const RCON_TYPE_RESPONSE: i32 = 0;

/// Everything that can go wrong while talking RCON to a server.
#[derive(Debug, Clone, PartialEq)]
pub enum RconError {
    /// The TCP connection could not be established, or no server is configured.
    ConnectionFailed(String),
    /// The server rejected the password.
    AuthenticationFailed,
    /// An I/O operation failed with an unclassified error message.
    CommandFailed(String),
    /// A response packet was malformed or did not match the request.
    InvalidResponse,
    /// No live, authenticated session exists.
    NotConnected,
    /// A read ended before the buffer could be filled.
    BufferError(String),
    /// The server closed the connection prematurely.
    ServerClosedConnection,
    /// A network operation timed out.
    NetworkTimeout,
}

/// One RCON protocol packet: a request id chosen by the client and echoed by
/// the server, a packet type and a textual payload.
#[derive(Debug, Clone)]
pub struct RconPacket {
    pub request_id: i32,
    pub packet_type: i32,
    pub payload: String,
}

/// The four bytes of `x` in little-endian order.
pub open spec fn u32_le_bytes(x: u32) -> Seq<u8> {
    seq![
        (x & 0xff) as u8,
        ((x >> 8) & 0xff) as u8,
        ((x >> 16) & 0xff) as u8,
        ((x >> 24) & 0xff) as u8,
    ]
}

/// The four bytes of `x` (reinterpreted as unsigned) in little-endian order.
pub open spec fn i32_le_bytes(x: i32) -> Seq<u8> {
    u32_le_bytes(x as u32)
}

/// The unsigned integer encoded by four little-endian bytes.
pub open spec fn u32_of_le(b0: u8, b1: u8, b2: u8, b3: u8) -> u32 {
    (b0 as u32) | ((b1 as u32) << 8) | ((b2 as u32) << 16) | ((b3 as u32) << 24)
}

/// The signed integer encoded by the first four bytes of `b`.
pub open spec fn i32_of_le(b: Seq<u8>) -> i32
    recommends
        b.len() >= 4,
{
    u32_of_le(b[0], b[1], b[2], b[3]) as i32
}

/// Reading four little-endian bytes undoes writing them.
pub proof fn lemma_le_round_trip(x: i32)
    ensures
        i32_of_le(i32_le_bytes(x)) == x,
{
    let u: u32 = x as u32;
    assert(((u & 0xff) as u8 as u32) | ((((u >> 8) & 0xff) as u8 as u32) << 8) | ((((u >> 16)
        & 0xff) as u8 as u32) << 16) | ((((u >> 24) & 0xff) as u8 as u32) << 24) == u)
        by (bit_vector);
    assert(x as u32 as i32 == x) by (bit_vector);
}

/// Appends the four little-endian bytes of `x` to `out`.
pub fn push_i32_le(out: &mut Vec<u8>, x: i32)
    ensures
        final(out)@ == old(out)@ + i32_le_bytes(x),
{
    let u = x as u32;
    out.push((u & 0xff) as u8);
    out.push(((u >> 8) & 0xff) as u8);
    out.push(((u >> 16) & 0xff) as u8);
    out.push(((u >> 24) & 0xff) as u8);
    proof {
        assert(final(out)@ =~= old(out)@ + i32_le_bytes(x));
    }
}

/// Reads a little-endian 32-bit integer from `b` starting at `off`.
pub fn read_i32_le(b: &Vec<u8>, off: usize) -> (x: i32)
    requires
        off + 4 <= b@.len(),
    ensures
        x == i32_of_le(b@.subrange(off as int, off as int + 4)),
{
    let n = b.len();
    let b0 = b[off];
    let b1 = b[off + 1];
    let b2 = b[off + 2];
    let b3 = b[off + 3];
    let u: u32 = (b0 as u32) | ((b1 as u32) << 8) | ((b2 as u32) << 16) | ((b3 as u32) << 24);
    proof {
        let s = b@.subrange(off as int, off as int + 4);
        assert(s[0] == b0 && s[1] == b1 && s[2] == b2 && s[3] == b3);
    }
    #[verifier::truncate] (u as i32)
}

/// The `size` field of a packet with this payload: 4 (id) + 4 (type) +
/// payload bytes + 2 null terminators.
pub open spec fn spec_packet_size(payload: Seq<char>) -> int {
    10 + encode_utf8(payload).len() as int
}

/// The complete wire encoding of a packet.
pub open spec fn spec_encode_packet(request_id: i32, packet_type: i32, payload: Seq<char>) -> Seq<
    u8,
> {
    i32_le_bytes(spec_packet_size(payload) as i32) + i32_le_bytes(request_id) + i32_le_bytes(
        packet_type,
    ) + encode_utf8(payload) + seq![0u8, 0u8]
}

/// Encodes a packet for the wire: little-endian size, request id and type,
/// then the payload bytes and two null terminators.
pub fn encode_packet(request_id: i32, packet_type: i32, payload: &str) -> (out: Vec<u8>)
    requires
        spec_packet_size(payload@) <= i32::MAX,
    ensures
        out@ == spec_encode_packet(request_id, packet_type, payload@),
        out@.len() == spec_packet_size(payload@) + 4,
{
    let mut pb = payload.as_bytes_vec();
    let size: usize = pb.len() + 10;
    let mut out: Vec<u8> = Vec::new();
    push_i32_le(&mut out, size as i32);
    push_i32_le(&mut out, request_id);
    push_i32_le(&mut out, packet_type);
    out.append(&mut pb);
    out.push(0);
    out.push(0);
    proof {
        assert(out@ =~= spec_encode_packet(request_id, packet_type, payload@));
    }
    out
}

/// Whether a received `size` field is acceptable: outside `[10, 4096]` the
/// stream is treated as desynchronized and the packet rejected.
pub fn packet_size_ok(size: i32) -> (ok: bool)
    ensures
        ok == (10 <= size && size <= 4096),
{
    10 <= size && size <= 4096
}

/// Validates a received `size` field, as the decoder's first step: outside
/// `[10, 4096]` the stream is treated as desynchronized and the packet
/// rejected as [`RconError::InvalidResponse`].
pub fn check_packet_size(size: i32) -> (r: Result<usize, RconError>)
    ensures
        r is Ok <==> 10 <= size <= 4096,
        r matches Ok(n) ==> n == size,
        r matches Err(e) ==> e == RconError::InvalidResponse,
{
    if 10 <= size && size <= 4096 {
        Ok(size as usize)
    } else {
        Err(RconError::InvalidResponse)
    }
}

/// `b` with all trailing zero bytes removed.
pub open spec fn strip_trailing_zeros(b: Seq<u8>) -> Seq<u8>
    decreases b.len(),
{
    if b.len() > 0 && b.last() == 0 {
        strip_trailing_zeros(b.drop_last())
    } else {
        b
    }
}

/// What `String::from_utf8_lossy` returns on these bytes.
pub uninterp spec fn utf8_lossy(b: Seq<u8>) -> Seq<char>;

/// Relies on `String::from_utf8_lossy` from std: the result depends on the
/// bytes alone, and bytes that are valid UTF-8 decode to exactly the
/// character sequence they encode.
#[verifier::external_body]
fn from_utf8_lossy_vec(b: &Vec<u8>) -> (r: String)
    ensures
        r@ == utf8_lossy(b@),
        valid_utf8(b@) ==> r@ == decode_utf8(b@),
{
    String::from_utf8_lossy(b.as_slice()).into_owned()
}

/// Decodes the body of a packet whose `size` field has already been read and
/// checked: the first eight bytes are the request id and type, the rest is
/// the payload, which is stripped of trailing zero bytes and decoded as
/// UTF-8 (lossily for invalid byte sequences).
pub fn decode_packet_body(size: i32, body: &Vec<u8>) -> (p: RconPacket)
    requires
        10 <= size <= 4096,
        body@.len() == size,
    ensures
        p.request_id == i32_of_le(body@.subrange(0, 4)),
        p.packet_type == i32_of_le(body@.subrange(4, 8)),
        p.payload@ == utf8_lossy(strip_trailing_zeros(body@.subrange(8, body@.len() as int))),
        valid_utf8(strip_trailing_zeros(body@.subrange(8, body@.len() as int))) ==> p.payload@
            == decode_utf8(strip_trailing_zeros(body@.subrange(8, body@.len() as int))),
{
    let request_id = read_i32_le(body, 0);
    let packet_type = read_i32_le(body, 4);
    let n = body.len();
    let mut payload_bytes: Vec<u8> = Vec::new();
    let mut i: usize = 8;
    while i < n
        invariant
            8 <= i <= n,
            n == body@.len(),
            payload_bytes@ == body@.subrange(8, i as int),
        decreases n - i,
    {
        payload_bytes.push(body[i]);
        proof {
            assert(body@.subrange(8, i + 1int) =~= body@.subrange(8, i as int).push(
                body@[i as int],
            ));
        }
        i = i + 1;
    }
    while payload_bytes.len() > 0 && payload_bytes[payload_bytes.len() - 1] == 0
        invariant
            strip_trailing_zeros(payload_bytes@) == strip_trailing_zeros(
                body@.subrange(8, body@.len() as int),
            ),
        decreases payload_bytes@.len(),
    {
        let _ = payload_bytes.pop();
    }
    let payload = from_utf8_lossy_vec(&payload_bytes);
    RconPacket { request_id, packet_type, payload }
}

/// Removing the two null terminators does not change the stripped payload.
proof fn lemma_strip_terminators(b: Seq<u8>)
    ensures
        strip_trailing_zeros(b + seq![0u8, 0u8]) == strip_trailing_zeros(b),
{
    let e = b + seq![0u8, 0u8];
    let e1 = b + seq![0u8];
    assert(e.last() == 0);
    assert(e.drop_last() =~= e1);
    assert(strip_trailing_zeros(e) == strip_trailing_zeros(e1));
    assert(e1.last() == 0);
    assert(e1.drop_last() =~= b);
    assert(strip_trailing_zeros(e1) == strip_trailing_zeros(b));
}

/// A character other than NUL never encodes to a zero final byte.
proof fn lemma_encode_scalar_last_nonzero(c: char)
    requires
        c != '\0',
    ensures
        encode_scalar(c as u32).len() >= 1,
        encode_scalar(c as u32).last() != 0,
{
    let u: u32 = c as u32;
    assert(u != 0) by {
        vstd::utf8::char_u32_cast(c, u);
    }
    if vstd::utf8::has_width_1_encoding(u) {
        assert((u & 0x7F) as u8 != 0) by (bit_vector)
            requires
                u != 0 && u <= 0x7F,
        ;
    } else {
        assert(0x80u8 | ((u & 0x3F) as u8) != 0) by (bit_vector);
    }
}

/// A payload not ending in NUL encodes to bytes not ending in zero.
proof fn lemma_encode_utf8_last_nonzero(chars: Seq<char>)
    requires
        chars.len() > 0,
        chars.last() != '\0',
    ensures
        encode_utf8(chars).len() > 0,
        encode_utf8(chars).last() != 0,
    decreases chars.len(),
{
    let rest = chars.drop_first();
    if chars.len() == 1 {
        lemma_encode_scalar_last_nonzero(chars[0]);
        assert(encode_utf8(chars) =~= encode_scalar(chars[0] as u32));
    } else {
        assert(rest.last() == chars.last());
        lemma_encode_utf8_last_nonzero(rest);
        assert(encode_utf8(chars).last() == encode_utf8(rest).last());
    }
}

/// Round-trip law: a packet encoded by [`encode_packet`] decodes, through
/// [`packet_size_ok`] and [`decode_packet_body`], to the original request
/// id, packet type and payload.  The payload must not end in a NUL
/// character (the decoder strips trailing NULs) and the packet must stay
/// within the protocol's size bound.
pub proof fn lemma_packet_round_trip(request_id: i32, packet_type: i32, payload: Seq<char>)
    requires
        payload.len() == 0 || payload.last() != '\0',
        spec_packet_size(payload) <= 4096,
    ensures
        ({
            let bytes = spec_encode_packet(request_id, packet_type, payload);
            let size = i32_of_le(bytes.subrange(0, 4));
            let body = bytes.subrange(4, bytes.len() as int);
            let stripped = strip_trailing_zeros(body.subrange(8, body.len() as int));
            &&& size == spec_packet_size(payload)
            &&& 10 <= size <= 4096
            &&& body.len() == size
            &&& i32_of_le(body.subrange(0, 4)) == request_id
            &&& i32_of_le(body.subrange(4, 8)) == packet_type
            &&& valid_utf8(stripped)
            &&& decode_utf8(stripped) == payload
        }),
{
    broadcast use vstd::utf8::encode_utf8_valid_utf8;
    broadcast use vstd::utf8::encode_utf8_decode_utf8;

    let enc = encode_utf8(payload);
    let size_val: i32 = spec_packet_size(payload) as i32;
    let bytes = spec_encode_packet(request_id, packet_type, payload);
    let body = bytes.subrange(4, bytes.len() as int);
    assert(bytes.subrange(0, 4) =~= i32_le_bytes(size_val));
    lemma_le_round_trip(size_val);
    assert(body.subrange(0, 4) =~= i32_le_bytes(request_id));
    assert(body.subrange(4, 8) =~= i32_le_bytes(packet_type));
    lemma_le_round_trip(request_id);
    lemma_le_round_trip(packet_type);
    assert(body.subrange(8, body.len() as int) =~= enc + seq![0u8, 0u8]);
    lemma_strip_terminators(enc);
    if payload.len() == 0 {
        assert(strip_trailing_zeros(enc) =~= enc);
    } else {
        lemma_encode_utf8_last_nonzero(payload);
        assert(strip_trailing_zeros(enc) =~= enc);
    }
}

/// Classifies the message of a failed read, as the decoder does: a short
/// read is a [`RconError::BufferError`], a reset or aborted connection a
/// [`RconError::ServerClosedConnection`], a timeout a
/// [`RconError::NetworkTimeout`]; anything else becomes a
/// [`RconError::CommandFailed`] carrying `prefix` followed by the message.
pub fn classify_read_error(msg: &str, prefix: &str) -> (e: RconError)
    ensures
        contains_seq(msg@, "failed to fill whole buffer"@) ==> (e matches RconError::BufferError(m)
            && m@ == msg@),
        !contains_seq(msg@, "failed to fill whole buffer"@) && (contains_seq(
            msg@,
            "Connection reset"@,
        ) || contains_seq(msg@, "Connection aborted"@)) ==> e
            == RconError::ServerClosedConnection,
        !contains_seq(msg@, "failed to fill whole buffer"@) && !contains_seq(
            msg@,
            "Connection reset"@,
        ) && !contains_seq(msg@, "Connection aborted"@) && (contains_seq(msg@, "timed out"@)
            || contains_seq(msg@, "timeout"@)) ==> e == RconError::NetworkTimeout,
        !contains_seq(msg@, "failed to fill whole buffer"@) && !contains_seq(
            msg@,
            "Connection reset"@,
        ) && !contains_seq(msg@, "Connection aborted"@) && !contains_seq(msg@, "timed out"@)
            && !contains_seq(msg@, "timeout"@) ==> (e matches RconError::CommandFailed(m) && m@
            == prefix@ + msg@),
{
    if str_contains(msg, "failed to fill whole buffer") {
        RconError::BufferError(String::from_str(msg))
    } else if str_contains(msg, "Connection reset") || str_contains(msg, "Connection aborted") {
        RconError::ServerClosedConnection
    } else if str_contains(msg, "timed out") || str_contains(msg, "timeout") {
        RconError::NetworkTimeout
    } else {
        RconError::CommandFailed(String::from_str(prefix).concat(msg))
    }
}

} // verus!
