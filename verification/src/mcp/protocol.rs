//! The binary framing of messages on a byte stream.
//!
//! A frame is: the message type code (1 byte), the priority code (1 byte), the
//! 16 identifier bytes, a correlation flag (1 byte, `1` when present) followed
//! by 16 correlation bytes when present, an error flag (1 byte, `1` when
//! present) followed, when present, by the error code (4 bytes, big endian),
//! the length of the error text (4 bytes, big endian) and its UTF-8 bytes, and
//! finally the payload length (4 bytes, big endian) and the payload.

use vstd::prelude::*;
use vstd::utf8::{decode_utf8, encode_utf8, valid_utf8};
use crate::mcp::types::{
    Message, MessageId, MessageType, Priority, message_type_code, priority_code,
};
use crate::text::owned;
use crate::utils::error::{McpError, McpResult, error_text};

verus! {

broadcast use vstd::utf8::encode_utf8_valid_utf8, vstd::utf8::encode_utf8_decode_utf8;

// ---------------------------------------------------------------------------
// Specification of the frame layout
// ---------------------------------------------------------------------------

/// The four big-endian bytes of `n`.
pub open spec fn be32(n: u32) -> Seq<u8> {
    seq![(n / 16777216) as u8, ((n / 65536) % 256) as u8, ((n / 256) % 256) as u8, (n % 256) as u8]
}

/// The number whose big-endian bytes start at `i`.
pub open spec fn read_be32(b: Seq<u8>, i: int) -> nat {
    (b[i] as nat) * 16777216 + (b[i + 1] as nat) * 65536 + (b[i + 2] as nat) * 256 + (b[i + 3] as nat)
}

/// The numeric code an error travels with: its own for a wire error, 0 otherwise.
pub open spec fn wire_error_code(e: McpError) -> u32 {
    match e {
        McpError::Custom { code, message } => code,
        _ => 0,
    }
}

/// The text an error travels with: its own for a wire error, its description otherwise.
pub open spec fn wire_error_text(e: McpError) -> Seq<char> {
    match e {
        McpError::Custom { code, message } => message@,
        _ => error_text(e),
    }
}

/// The bytes of the correlation part of a frame.
pub open spec fn correlation_part(c: Option<MessageId>) -> Seq<u8> {
    match c {
        Some(id) => seq![1u8] + id.0@,
        None => seq![0u8],
    }
}

/// The bytes of the error part of a frame.
pub open spec fn error_part(e: Option<McpError>) -> Seq<u8> {
    match e {
        Some(err) => {
            let text = encode_utf8(wire_error_text(err));
            seq![1u8] + be32(wire_error_code(err)) + be32(text.len() as u32) + text
        },
        None => seq![0u8],
    }
}

/// The frame of a message.
pub open spec fn frame_of(m: Message) -> Seq<u8> {
    seq![message_type_code(m.message_type), priority_code(m.priority)] + m.id.0@
        + correlation_part(m.correlation_id) + error_part(m.error)
        + be32(m.payload@.len() as u32) + m.payload@
}

/// What reading a frame from the start of some bytes gives.
pub enum FrameOutcome {
    /// The bytes end before the frame does.
    Truncated,
    /// The type byte is not a message type code.
    BadType,
    /// The priority byte is not a priority code.
    BadPriority,
    /// The error text is not UTF-8.
    BadErrorText,
    /// A complete frame of `len` bytes.
    Frame {
        message_type: MessageType,
        priority: Priority,
        id: Seq<u8>,
        correlation: Option<Seq<u8>>,
        error: Option<(u32, Seq<char>)>,
        payload: Seq<u8>,
        len: nat,
    },
}

/// The message type with a code below 4.
pub open spec fn type_of_code(c: u8) -> MessageType {
    if c == 0 { MessageType::Request } else if c == 1 { MessageType::Response }
    else if c == 2 { MessageType::Event } else { MessageType::KeepAlive }
}

/// The priority with a code below 3.
pub open spec fn priority_of_code(c: u8) -> Priority {
    if c == 0 { Priority::Low } else if c == 1 { Priority::Normal } else { Priority::High }
}

/// Reading a frame from the start of `b`, field by field in stream order.
pub open spec fn frame_outcome(b: Seq<u8>) -> FrameOutcome {
    if b.len() < 1 {
        FrameOutcome::Truncated
    } else if b[0] >= 4 {
        FrameOutcome::BadType
    } else if b.len() < 2 {
        FrameOutcome::Truncated
    } else if b[1] >= 3 {
        FrameOutcome::BadPriority
    } else if b.len() < 19 {
        FrameOutcome::Truncated
    } else {
        let has_corr = b[18] == 1;
        let o1: int = if has_corr { 35 } else { 19 };
        if b.len() < o1 + 1 {
            FrameOutcome::Truncated
        } else {
            let has_err = b[o1] == 1;
            if has_err && b.len() < o1 + 9 {
                FrameOutcome::Truncated
            } else {
                let elen: int = if has_err { read_be32(b, o1 + 5) as int } else { 0 };
                if has_err && b.len() < o1 + 9 + elen {
                    FrameOutcome::Truncated
                } else if has_err && !valid_utf8(b.subrange(o1 + 9, o1 + 9 + elen)) {
                    FrameOutcome::BadErrorText
                } else {
                    let o2: int = if has_err { o1 + 9 + elen } else { o1 + 1 };
                    if b.len() < o2 + 4 {
                        FrameOutcome::Truncated
                    } else {
                        let plen: int = read_be32(b, o2) as int;
                        if b.len() < o2 + 4 + plen {
                            FrameOutcome::Truncated
                        } else {
                            FrameOutcome::Frame {
                                message_type: type_of_code(b[0]),
                                priority: priority_of_code(b[1]),
                                id: b.subrange(2, 18),
                                correlation: if has_corr { Some(b.subrange(19, 35)) } else { None },
                                error: if has_err {
                                    Some((read_be32(b, o1 + 1) as u32,
                                        decode_utf8(b.subrange(o1 + 9, o1 + 9 + elen))))
                                } else {
                                    None
                                },
                                payload: b.subrange(o2 + 4, o2 + 4 + plen),
                                len: (o2 + 4 + plen) as nat,
                            }
                        }
                    }
                }
            }
        }
    }
}

/// `m` is the message described by a complete frame.
pub open spec fn message_matches_frame(m: Message, f: FrameOutcome) -> bool {
    match f {
        FrameOutcome::Frame { message_type, priority, id, correlation, error, payload, len } => {
            &&& m.message_type == message_type
            &&& m.priority == priority
            &&& m.id.0@ == id
            &&& match correlation {
                Some(c) => (m.correlation_id matches Some(x) && x.0@ == c),
                None => m.correlation_id is None,
            }
            &&& match error {
                Some((code, text)) => (m.error matches Some(McpError::Custom { code: c2, message })
                    && c2 == code && message@ == text),
                None => m.error is None,
            }
            &&& m.payload@ == payload
        },
        _ => false,
    }
}

// ---------------------------------------------------------------------------
// Encoding
// ---------------------------------------------------------------------------

/// Appends the big-endian bytes of `n`.
fn push_be32(out: &mut Vec<u8>, n: u32)
    ensures
        final(out)@ == old(out)@ + be32(n),
{
    out.push((n / 16777216) as u8);
    out.push(((n / 65536) % 256) as u8);
    out.push(((n / 256) % 256) as u8);
    out.push((n % 256) as u8);
    assert(out@ =~= old(out)@ + be32(n));
}

/// Appends all bytes of `src`.
fn push_bytes(out: &mut Vec<u8>, src: &[u8])
    ensures
        final(out)@ == old(out)@ + src@,
{
    let mut j: usize = 0;
    while j < src.len()
        invariant
            j <= src@.len(),
            out@ == old(out)@ + src@.subrange(0, j as int),
        decreases src.len() - j,
    {
        out.push(src[j]);
        j = j + 1;
        assert(out@ =~= old(out)@ + src@.subrange(0, j as int));
    }
    assert(src@.subrange(0, src@.len() as int) =~= src@);
}

/// Appends the error part of a frame.
fn push_error_part(out: &mut Vec<u8>, error: &Option<McpError>)
    ensures
        final(out)@ == old(out)@ + error_part(*error),
{
    match error {
        Some(err) => {
            out.push(1u8);
            let (code, text) = match err {
                McpError::Custom { code, message } => (*code, message.clone()),
                _ => (0u32, err.to_text()),
            };
            let bytes = text.as_str().as_bytes();
            push_be32(out, code);
            push_be32(out, bytes.len() as u32);
            push_bytes(out, bytes);
            assert(out@ =~= old(out)@ + error_part(*error));
        },
        None => {
            out.push(0u8);
            assert(out@ =~= old(out)@ + error_part(*error));
        },
    }
}

/// Appends the correlation part of a frame.
fn push_correlation_part(out: &mut Vec<u8>, correlation_id: &Option<MessageId>)
    ensures
        final(out)@ == old(out)@ + correlation_part(*correlation_id),
{
    match correlation_id {
        Some(c) => {
            out.push(1u8);
            push_bytes(out, c.0.as_slice());
            assert(out@ =~= old(out)@ + correlation_part(*correlation_id));
        },
        None => {
            out.push(0u8);
            assert(out@ =~= old(out)@ + correlation_part(*correlation_id));
        },
    }
}

/// Serializes a message into its frame.
pub fn encode_message(message: &Message) -> (r: Vec<u8>)
    ensures
        r@ == frame_of(*message),
{
    let mut out: Vec<u8> = Vec::new();
    out.push(message.message_type.as_u8());
    out.push(message.priority.as_u8());
    push_bytes(&mut out, message.id.0.as_slice());
    let ghost s1 = out@;
    push_correlation_part(&mut out, &message.correlation_id);
    let ghost s2 = out@;
    push_error_part(&mut out, &message.error);
    let ghost s3 = out@;
    push_be32(&mut out, message.payload.len() as u32);
    let ghost s4 = out@;
    push_bytes(&mut out, message.payload.as_slice());
    assert(s1 =~= seq![message_type_code(message.message_type), priority_code(message.priority)]
        + message.id.0@);
    assert(out@ =~= frame_of(*message));
    out
}

// ---------------------------------------------------------------------------
// Decoding
// ---------------------------------------------------------------------------

/// `String::from_utf8`: the text of valid UTF-8 bytes, `None` otherwise.
#[verifier::external_body]
fn utf8_text(bytes: &[u8]) -> (r: Option<String>)
    ensures
        r is Some <==> valid_utf8(bytes@),
        r matches Some(s) ==> s@ == decode_utf8(bytes@),
{
    String::from_utf8(bytes.to_vec()).ok()
}

/// The number whose big-endian bytes start at `i`.
fn get_be32(b: &[u8], i: usize) -> (r: u32)
    requires
        i + 4 <= b@.len(),
    ensures
        r as nat == read_be32(b@, i as int),
{
    let r = (b[i] as u32) * 16777216 + (b[i + 1] as u32) * 65536 + (b[i + 2] as u32) * 256
        + (b[i + 3] as u32);
    r
}

/// The bytes `b[from..to]` as a vector.
fn copy_range(b: &[u8], from: usize, to: usize) -> (r: Vec<u8>)
    requires
        from <= to <= b@.len(),
    ensures
        r@ == b@.subrange(from as int, to as int),
{
    let mut out: Vec<u8> = Vec::new();
    let mut k = from;
    while k < to
        invariant
            from <= k <= to <= b@.len(),
            out@ == b@.subrange(from as int, k as int),
        decreases to - k,
    {
        out.push(b[k]);
        k = k + 1;
        assert(out@ =~= b@.subrange(from as int, k as int));
    }
    out
}

/// The 16 bytes starting at `i` as an identifier.
fn read_id(b: &[u8], i: usize) -> (r: MessageId)
    requires
        i + 16 <= b@.len(),
    ensures
        r.0@ == b@.subrange(i as int, i + 16),
{
    let mut id: [u8; 16] = [0u8, 0u8, 0u8, 0u8, 0u8, 0u8, 0u8, 0u8, 0u8, 0u8, 0u8, 0u8, 0u8, 0u8, 0u8, 0u8];
    let len = b.len();
    let mut k: usize = 0;
    while k < 16
        invariant
            k <= 16,
            len == b@.len(),
            i + 16 <= len,
            forall|j: int| 0 <= j < k ==> id@[j] == b@[i + j],
        decreases 16 - k,
    {
        id.set(k, b[i + k]);
        k = k + 1;
    }
    assert(id@ =~= b@.subrange(i as int, i + 16));
    MessageId(id)
}

/// The error a stream gives when it ends before a frame does.
pub open spec fn truncated_error_text() -> Seq<char> {
    "failed to fill whole buffer"@
}

/// Reads one frame from the start of `bytes`, giving the message and the number
/// of bytes it took.
pub fn decode_message(bytes: &[u8]) -> (r: McpResult<(Message, usize)>)
    ensures
        match frame_outcome(bytes@) {
            FrameOutcome::Truncated => (r matches Err(McpError::Io(t)) && t@ == truncated_error_text()),
            FrameOutcome::BadType => (r matches Err(McpError::InvalidMessage(t)) && t@ == "Invalid message type"@),
            FrameOutcome::BadPriority => (r matches Err(McpError::InvalidMessage(t)) && t@ == "Invalid priority"@),
            FrameOutcome::BadErrorText => (r matches Err(McpError::InvalidMessage(t))
                && t@ == "Invalid UTF-8 in error message"@),
            FrameOutcome::Frame { len, .. } => (r matches Ok((m, n)) && n == len
                && message_matches_frame(m, frame_outcome(bytes@))),
        },
{
    let n = bytes.len();
    if n < 1 {
        return Err(McpError::Io(owned("failed to fill whole buffer")));
    }
    let message_type = match MessageType::from_u8(bytes[0]) {
        Some(t) => t,
        None => {
            return Err(McpError::InvalidMessage(owned("Invalid message type")));
        },
    };
    if n < 2 {
        return Err(McpError::Io(owned("failed to fill whole buffer")));
    }
    let priority = match Priority::from_u8(bytes[1]) {
        Some(p) => p,
        None => {
            return Err(McpError::InvalidMessage(owned("Invalid priority")));
        },
    };
    if n < 19 {
        return Err(McpError::Io(owned("failed to fill whole buffer")));
    }
    let id = read_id(bytes, 2);
    let has_corr = bytes[18] == 1;
    let o1: usize = if has_corr { 35 } else { 19 };
    if n < o1 + 1 {
        return Err(McpError::Io(owned("failed to fill whole buffer")));
    }
    let correlation_id = if has_corr { Some(read_id(bytes, 19)) } else { None };
    let has_err = bytes[o1] == 1;
    let mut o2: usize = o1 + 1;
    let mut error: Option<McpError> = None;
    if has_err {
        if n < o1 + 9 {
            return Err(McpError::Io(owned("failed to fill whole buffer")));
        }
        let code = get_be32(bytes, o1 + 1);
        let elen = get_be32(bytes, o1 + 5) as usize;
        if n - (o1 + 9) < elen {
            return Err(McpError::Io(owned("failed to fill whole buffer")));
        }
        let text_bytes = copy_range(bytes, o1 + 9, o1 + 9 + elen);
        match utf8_text(text_bytes.as_slice()) {
            Some(text) => {
                error = Some(McpError::Custom { code, message: text });
            },
            None => {
                return Err(McpError::InvalidMessage(owned("Invalid UTF-8 in error message")));
            },
        }
        o2 = o1 + 9 + elen;
    }
    if n - o2 < 4 {
        return Err(McpError::Io(owned("failed to fill whole buffer")));
    }
    let plen = get_be32(bytes, o2) as usize;
    if n - (o2 + 4) < plen {
        return Err(McpError::Io(owned("failed to fill whole buffer")));
    }
    let payload = copy_range(bytes, o2 + 4, o2 + 4 + plen);
    let m = Message { id, message_type, priority, payload, correlation_id, error };
    Ok((m, o2 + 4 + plen))
}

// ---------------------------------------------------------------------------
// Round trip
// ---------------------------------------------------------------------------

/// `d` is what reading the frame of `m` gives back: the same fields, with an
/// error turned into its wire form (code and text).
pub open spec fn decoded_message_of(d: Message, m: Message) -> bool {
    &&& d.message_type == m.message_type
    &&& d.priority == m.priority
    &&& d.id.0@ == m.id.0@
    &&& match (d.correlation_id, m.correlation_id) {
        (Some(x), Some(y)) => x.0@ == y.0@,
        (None, None) => true,
        _ => false,
    }
    &&& match m.error {
        Some(e) => (d.error matches Some(McpError::Custom { code, message })
            && code == wire_error_code(e) && message@ == wire_error_text(e)),
        None => d.error is None,
    }
    &&& d.payload@ == m.payload@
}

/// Reading back the big-endian bytes of a number gives the number.
pub proof fn lemma_be32_round_trip(n: u32)
    ensures
        be32(n).len() == 4,
        read_be32(be32(n), 0) == n,
{
    assert(n / 16777216 < 256) by (bit_vector);
    assert((n / 16777216) * 16777216 + ((n / 65536) % 256) * 65536 + ((n / 256) % 256) * 256
        + n % 256 == n) by (bit_vector);
}

/// The numbers read from concatenated bytes at an offset.
proof fn lemma_read_be32_at(pre: Seq<u8>, n: u32, post: Seq<u8>)
    ensures
        read_be32(pre + be32(n) + post, pre.len() as int) == n,
{
    lemma_be32_round_trip(n);
    let b = pre + be32(n) + post;
    let k = pre.len() as int;
    assert(b[k] == be32(n)[0]);
    assert(b[k + 1] == be32(n)[1]);
    assert(b[k + 2] == be32(n)[2]);
    assert(b[k + 3] == be32(n)[3]);
}

/// Reading the frame of a message, followed by any bytes, gives the message back
/// (with its error in wire form) and consumes exactly the frame, when its lengths
/// fit in the 32-bit length fields.
pub proof fn lemma_frame_round_trip(m: Message, rest: Seq<u8>, d: Message)
    requires
        m.payload@.len() < 4294967296,
        m.error matches Some(e) ==> encode_utf8(wire_error_text(e)).len() < 4294967296,
        message_matches_frame(d, frame_outcome(frame_of(m) + rest)),
    ensures
        decoded_message_of(d, m),
{
    lemma_frame_decodes(m, rest);
}

/// The outcome of reading bytes whose fields have the given values.
proof fn lemma_outcome_of_fields(
    b: Seq<u8>, has_corr: bool, has_err: bool, elen: int, plen: int, o1: int, o2: int,
)
    requires
        b.len() >= o2 + 4 + plen,
        b[0] < 4,
        b[1] < 3,
        b.len() >= 19,
        has_corr == (b[18] == 1),
        o1 == if has_corr { 35int } else { 19int },
        has_err == (b[o1] == 1),
        has_err ==> read_be32(b, o1 + 5) == elen && valid_utf8(b.subrange(o1 + 9, o1 + 9 + elen)),
        elen >= 0,
        o2 == if has_err { o1 + 9 + elen } else { o1 + 1 },
        read_be32(b, o2) == plen,
    ensures
        frame_outcome(b) == (FrameOutcome::Frame {
            message_type: type_of_code(b[0]),
            priority: priority_of_code(b[1]),
            id: b.subrange(2, 18),
            correlation: if has_corr { Some(b.subrange(19, 35)) } else { None },
            error: if has_err {
                Some((read_be32(b, o1 + 1) as u32, decode_utf8(b.subrange(o1 + 9, o1 + 9 + elen))))
            } else {
                None
            },
            payload: b.subrange(o2 + 4, o2 + 4 + plen),
            len: (o2 + 4 + plen) as nat,
        }),
{
}

/// Offset of the error flag in the frame of `m`.
pub open spec fn frame_o1(m: Message) -> int {
    18 + correlation_part(m.correlation_id).len() as int
}

/// Length of the error text bytes in the frame of `m`.
pub open spec fn frame_elen(m: Message) -> int {
    match m.error {
        Some(e) => encode_utf8(wire_error_text(e)).len() as int,
        None => 0,
    }
}

/// Offset of the payload length in the frame of `m`.
pub open spec fn frame_o2(m: Message) -> int {
    if m.error is Some { frame_o1(m) + 9 + frame_elen(m) } else { frame_o1(m) + 1 }
}

proof fn lemma_frame_header(m: Message, rest: Seq<u8>)
    ensures
        ({
            let b = frame_of(m) + rest;
            &&& b.len() >= 19
            &&& b[0] == message_type_code(m.message_type)
            &&& b[1] == priority_code(m.priority)
            &&& b.subrange(2, 18) == m.id.0@
            &&& (b[18] == 1) == (m.correlation_id is Some)
            &&& frame_o1(m) == if b[18] == 1 { 35int } else { 19int }
            &&& (m.correlation_id matches Some(c) ==> b.subrange(19, 35) == c.0@)
        }),
{
    let h = seq![message_type_code(m.message_type), priority_code(m.priority)] + m.id.0@;
    let cp = correlation_part(m.correlation_id);
    let b = frame_of(m) + rest;
    assert(m.id.0@.len() == 16);
    assert(b =~= h + (cp + error_part(m.error) + be32(m.payload@.len() as u32) + m.payload@ + rest));
    assert(b.subrange(2, 18) =~= m.id.0@);
    assert(b[18] == cp[0]);
    if let Some(c) = m.correlation_id {
        assert(c.0@.len() == 16);
        assert(b.subrange(19, 35) =~= c.0@);
    }
}

proof fn lemma_frame_error_text(pre: Seq<u8>, code: u32, text: Seq<u8>, tail: Seq<u8>)
    requires
        text.len() < 4294967296,
    ensures
        ({
            let b = pre + (seq![1u8] + be32(code) + be32(text.len() as u32) + text) + tail;
            let o1 = pre.len() as int;
            &&& b[o1] == 1
            &&& read_be32(b, o1 + 1) == code
            &&& read_be32(b, o1 + 5) == text.len()
            &&& b.subrange(o1 + 9, o1 + 9 + text.len()) == text
        }),
{
    let tl = text.len() as u32;
    let b = pre + (seq![1u8] + be32(code) + be32(tl) + text) + tail;
    let p1 = pre + seq![1u8];
    lemma_be32_round_trip(tl);
    lemma_read_be32_at(p1, code, be32(tl) + text + tail);
    assert(b =~= p1 + be32(code) + (be32(tl) + text + tail));
    lemma_read_be32_at(p1 + be32(code), tl, text + tail);
    assert(b =~= (p1 + be32(code)) + be32(tl) + (text + tail));
    assert(b.subrange(pre.len() as int + 9, pre.len() as int + 9 + text.len()) =~= text);
}

proof fn lemma_frame_error(m: Message, rest: Seq<u8>)
    requires
        m.error matches Some(e) ==> encode_utf8(wire_error_text(e)).len() < 4294967296,
    ensures
        ({
            let b = frame_of(m) + rest;
            let o1 = frame_o1(m);
            &&& b.len() >= frame_o2(m)
            &&& (b[o1] == 1) == (m.error is Some)
            &&& (m.error matches Some(e) ==> {
                &&& read_be32(b, o1 + 1) == wire_error_code(e)
                &&& read_be32(b, o1 + 5) == frame_elen(m)
                &&& b.subrange(o1 + 9, o1 + 9 + frame_elen(m)) == encode_utf8(wire_error_text(e))
            })
        }),
{
    let h = seq![message_type_code(m.message_type), priority_code(m.priority)] + m.id.0@;
    let cp = correlation_part(m.correlation_id);
    let ep = error_part(m.error);
    let tail = be32(m.payload@.len() as u32) + m.payload@ + rest;
    let b = frame_of(m) + rest;
    assert(m.id.0@.len() == 16);
    assert(b =~= (h + cp) + ep + tail);
    if let Some(e) = m.error {
        let text = encode_utf8(wire_error_text(e));
        lemma_frame_error_text(h + cp, wire_error_code(e), text, tail);
    } else {
        assert(b[frame_o1(m)] == ep[0]);
    }
}

proof fn lemma_frame_payload(m: Message, rest: Seq<u8>)
    requires
        m.payload@.len() < 4294967296,
        m.error matches Some(e) ==> encode_utf8(wire_error_text(e)).len() < 4294967296,
    ensures
        ({
            let b = frame_of(m) + rest;
            let o2 = frame_o2(m);
            &&& read_be32(b, o2) == m.payload@.len()
            &&& b.len() >= o2 + 4 + m.payload@.len()
            &&& b.subrange(o2 + 4, o2 + 4 + m.payload@.len()) == m.payload@
            &&& frame_of(m).len() == o2 + 4 + m.payload@.len()
        }),
{
    let h = seq![message_type_code(m.message_type), priority_code(m.priority)] + m.id.0@;
    let cp = correlation_part(m.correlation_id);
    let ep = error_part(m.error);
    let plen = m.payload@.len() as u32;
    let b = frame_of(m) + rest;
    assert(m.id.0@.len() == 16);
    if let Some(e) = m.error {
        assert(ep.len() == 9 + frame_elen(m));
    }
    assert(h.len() + cp.len() + ep.len() == frame_o2(m));
    lemma_read_be32_at(h + cp + ep, plen, m.payload@ + rest);
    assert(b =~= (h + cp + ep) + be32(plen) + (m.payload@ + rest));
    assert(b.subrange(frame_o2(m) + 4, frame_o2(m) + 4 + m.payload@.len()) =~= m.payload@);
}

/// The outcome of reading the frame of a message followed by any bytes.
pub proof fn lemma_frame_decodes(m: Message, rest: Seq<u8>)
    requires
        m.payload@.len() < 4294967296,
        m.error matches Some(e) ==> encode_utf8(wire_error_text(e)).len() < 4294967296,
    ensures
        frame_outcome(frame_of(m) + rest) matches FrameOutcome::Frame { len, .. }
            && len == frame_of(m).len(),
        forall|d: Message| message_matches_frame(d, frame_outcome(frame_of(m) + rest))
            ==> decoded_message_of(d, m),
{
    let b = frame_of(m) + rest;
    lemma_frame_header(m, rest);
    lemma_frame_error(m, rest);
    lemma_frame_payload(m, rest);
    let has_corr = m.correlation_id is Some;
    let has_err = m.error is Some;
    if let Some(e) = m.error {
        assert(valid_utf8(encode_utf8(wire_error_text(e))));
    }
    lemma_outcome_of_fields(b, has_corr, has_err, frame_elen(m), m.payload@.len() as int,
        frame_o1(m), frame_o2(m));
    assert forall|d: Message| message_matches_frame(d, frame_outcome(b)) implies decoded_message_of(d, m) by {
        assert(type_of_code(b[0]) == m.message_type);
        assert(priority_of_code(b[1]) == m.priority);
        if let Some(e) = m.error {
            assert(decode_utf8(encode_utf8(wire_error_text(e))) == wire_error_text(e));
        }
    }
}

} // verus!
