//! Length-prefixed framing of the TCP and KCP transports.
//!
//! One frame is a 3-byte big-endian length that counts the whole frame,
//! header included, a 1-byte opcode, and the payload. A close payload is a
//! big-endian close code followed by the UTF-8 reason. In raw mode frames
//! are off: text and binary bytes pass through, control messages are dropped.
use vstd::prelude::*;
use vstd::utf8::*;
use algorithm::buf::BinaryMut;
use crate::buffer::{buf_advance, buf_bytes, buf_chunk, buf_len, buf_put_slice};
use crate::error::{NetError, NetResult};
use crate::message::{CloseCode, Message, MessageView};
use crate::settings::Settings;

verus! {

/// Largest length a 3-byte header can hold.
pub const MAX_FRAME_LENGTH: usize = 0xFFFFFF;

/// The big-endian value of the first three bytes.
pub open spec fn u24_value(b: Seq<u8>) -> nat
    recommends
        b.len() >= 3,
{
    b[0] as nat * 65536 + b[1] as nat * 256 + b[2] as nat
}

/// The three big-endian bytes of `v` modulo 2^24.
pub open spec fn u24_bytes(v: nat) -> Seq<u8> {
    seq![(v / 65536 % 256) as u8, (v / 256 % 256) as u8, (v % 256) as u8]
}

/// The two big-endian bytes of a close code value.
pub open spec fn u16_bytes(v: u16) -> Seq<u8> {
    seq![(v / 256) as u8, (v % 256) as u8]
}

/// A frame with the given tag and payload.
pub open spec fn frame_of(op: u8, payload: Seq<u8>) -> Seq<u8> {
    u24_bytes(payload.len() + 4) + seq![op] + payload
}

/// The payload bytes that a message carries on the wire.
pub open spec fn wire_payload(m: MessageView) -> Seq<u8> {
    match m {
        MessageView::Text(s) => encode_utf8(s),
        MessageView::Binary(b) => b,
        MessageView::Close(c, r) => u16_bytes(c) + encode_utf8(r),
        MessageView::Ping(b) => b,
        MessageView::Pong(b) => b,
        MessageView::Shutdown => Seq::empty(),
    }
}

/// The tag byte that a message is framed with.
pub open spec fn wire_opcode(m: MessageView) -> u8 {
    match m {
        MessageView::Text(_) => 1,
        MessageView::Binary(_) => 2,
        MessageView::Close(_, _) => 8,
        MessageView::Ping(_) => 9,
        MessageView::Pong(_) => 10,
        MessageView::Shutdown => 11,
    }
}

/// Whether the message has a frame on the wire: never `Shutdown`, and in raw mode
/// only text and binary.
pub open spec fn has_wire_form(m: MessageView, is_raw: bool) -> bool {
    if is_raw {
        m is Text || m is Binary
    } else {
        !(m is Shutdown)
    }
}

/// Whether the frame of the message fits the 3-byte length.
pub open spec fn fits_header(m: MessageView, is_raw: bool) -> bool {
    is_raw || !has_wire_form(m, is_raw) || wire_payload(m).len() + 4 <= MAX_FRAME_LENGTH
}

/// The bytes written for a message.
pub open spec fn encoded(m: MessageView, is_raw: bool) -> Seq<u8> {
    if !has_wire_form(m, is_raw) {
        Seq::empty()
    } else if is_raw {
        wire_payload(m)
    } else {
        frame_of(wire_opcode(m), wire_payload(m))
    }
}

/// What the decoder finds at the front of a buffer.
pub ghost enum Decoded {
    /// Not enough bytes yet; nothing is consumed.
    Pending,
    /// A message, and the number of bytes it took.
    Frame(MessageView, nat),
    /// A fatal framing error.
    Failed(NetError),
}

/// The message a well-sized frame body reads as, or the error it raises.
pub open spec fn payload_decoded(op: u8, p: Seq<u8>, n: nat) -> Decoded {
    if op == 1 {
        if valid_utf8(p) {
            Decoded::Frame(MessageView::Text(decode_utf8(p)), n)
        } else {
            Decoded::Failed(NetError::BadText)
        }
    } else if op == 2 {
        Decoded::Frame(MessageView::Binary(p), n)
    } else if op == 8 {
        if p.len() < 2 {
            Decoded::Failed(NetError::TooShort)
        } else if valid_utf8(p.skip(2)) {
            Decoded::Frame(
                MessageView::Close((p[0] as nat * 256 + p[1] as nat) as u16, decode_utf8(p.skip(2))),
                n,
            )
        } else {
            Decoded::Failed(NetError::BadText)
        }
    } else if op == 9 {
        Decoded::Frame(MessageView::Ping(p), n)
    } else if op == 10 {
        Decoded::Frame(MessageView::Pong(p), n)
    } else {
        Decoded::Failed(NetError::BadCode)
    }
}

/// The decoder's reading of the buffered bytes `b`.
pub open spec fn decoded(b: Seq<u8>, max: nat, is_raw: bool) -> Decoded {
    if is_raw {
        if b.len() == 0 {
            Decoded::Pending
        } else {
            Decoded::Frame(MessageView::Binary(b), b.len())
        }
    } else if b.len() < 4 {
        Decoded::Pending
    } else if u24_value(b) < 4 {
        Decoded::Failed(NetError::TooShort)
    } else if u24_value(b) > max {
        Decoded::Failed(NetError::OverMsgSize)
    } else if b.len() < u24_value(b) {
        Decoded::Pending
    } else {
        payload_decoded(b[3], b.subrange(4, u24_value(b) as int), u24_value(b))
    }
}

/// Relies on String::from_utf8: succeeds exactly on valid UTF-8, and the
/// string then holds the characters those bytes encode.
#[verifier::external_body]
pub(crate) fn string_from_utf8(v: Vec<u8>) -> (r: Option<String>)
    ensures
        r.is_some() == valid_utf8(v@),
        r matches Some(s) ==> s@ == decode_utf8(v@),
{
    String::from_utf8(v).ok()
}

/// Copies `b[from..to]` into a new vector.
fn copy_range(b: &[u8], from: usize, to: usize) -> (r: Vec<u8>)
    requires
        from <= to <= b@.len(),
    ensures
        r@ == b@.subrange(from as int, to as int),
{
    let mut r: Vec<u8> = Vec::new();
    let mut i: usize = from;
    while i < to
        invariant
            from <= i <= to <= b@.len(),
            r@ == b@.subrange(from as int, i as int),
        decreases to - i,
    {
        r.push(b[i]);
        i = i + 1;
    }
    r
}

/// Reads a 3-byte big-endian length from the front of the buffer, consuming
/// it; with fewer than three bytes buffered, reads 0 and consumes nothing.
pub fn read_u24(buf: &mut BinaryMut) -> (r: u32)
    ensures
        buf_bytes(*old(buf)).len() < 3 ==> r == 0 && buf_bytes(*final(buf)) == buf_bytes(*old(buf)),
        buf_bytes(*old(buf)).len() >= 3 ==> r == u24_value(buf_bytes(*old(buf)))
            && buf_bytes(*final(buf)) == buf_bytes(*old(buf)).skip(3),
{
    if buf_len(buf) < 3 {
        return 0;
    }
    let c = buf_chunk(buf);
    let v: u32 = (c[0] as u32) * 65536 + (c[1] as u32) * 256 + c[2] as u32;
    buf_advance(buf, 3);
    v
}

/// Appends the three big-endian bytes of `val` (modulo 2^24); returns 3.
pub fn encode_u24(buf: &mut BinaryMut, val: u32) -> (r: usize)
    ensures
        r == 3,
        buf_bytes(*final(buf)) == buf_bytes(*old(buf)) + u24_bytes(val as nat),
{
    let b = [(val / 65536 % 256) as u8, (val / 256 % 256) as u8, (val % 256) as u8];
    buf_put_slice(buf, &b);
    proof {
        assert(b@ =~= u24_bytes(val as nat));
    }
    3
}

/// Appends one frame with tag `op` and the given payload; fails, appending
/// nothing, when the frame would not fit the 3-byte length.
fn put_frame(data: &mut BinaryMut, op: u8, payload: &[u8]) -> (r: NetResult<()>)
    ensures
        r is Ok <==> payload@.len() + 4 <= MAX_FRAME_LENGTH,
        r is Ok ==> buf_bytes(*final(data)) == buf_bytes(*old(data)) + frame_of(op, payload@),
        r matches Err(e) ==> e == NetError::OverMsgSize && buf_bytes(*final(data)) == buf_bytes(*old(data)),
{
    if payload.len() > MAX_FRAME_LENGTH - 4 {
        return Err(NetError::OverMsgSize);
    }
    let n: u32 = (payload.len() + 4) as u32;
    encode_u24(data, n);
    let tag = [op];
    buf_put_slice(data, &tag);
    buf_put_slice(data, payload);
    proof {
        assert(tag@ =~= seq![op]);
        assert(buf_bytes(*data) =~= buf_bytes(*old(data)) + frame_of(op, payload@));
    }
    Ok(())
}

/// Appends the wire form of `msg` to `data`: a frame, the bare bytes in raw
/// mode, or nothing for a message without a wire form. Fails with
/// `OverMsgSize`, appending nothing, when the frame would not fit the 3-byte length.
pub fn encode_message(data: &mut BinaryMut, msg: Message, is_raw: bool) -> (r: NetResult<()>)
    ensures
        r is Ok <==> fits_header(msg@, is_raw),
        r is Ok ==> buf_bytes(*final(data)) == buf_bytes(*old(data)) + encoded(msg@, is_raw),
        r matches Err(e) ==> e == NetError::OverMsgSize && buf_bytes(*final(data)) == buf_bytes(*old(data)),
{
    let ghost m = msg@;
    match msg {
        Message::Text(text) => {
            let bytes = text.as_str().as_bytes();
            if is_raw {
                buf_put_slice(data, bytes);
                Ok(())
            } else {
                put_frame(data, 1, bytes)
            }
        },
        Message::Binary(bytes) => {
            if is_raw {
                buf_put_slice(data, bytes.as_slice());
                Ok(())
            } else {
                put_frame(data, 2, bytes.as_slice())
            }
        },
        Message::Close(code, reason) => {
            if is_raw {
                proof {
                    assert(buf_bytes(*data) =~= buf_bytes(*old(data)) + encoded(m, is_raw));
                }
                return Ok(());
            }
            let v = code.to_u16();
            let mut p: Vec<u8> = Vec::new();
            p.push((v / 256) as u8);
            p.push((v % 256) as u8);
            let rb = reason.as_str().as_bytes();
            let mut i: usize = 0;
            while i < rb.len()
                invariant
                    i <= rb@.len(),
                    p@ == u16_bytes(v) + rb@.subrange(0, i as int),
                decreases rb@.len() - i,
            {
                p.push(rb[i]);
                i = i + 1;
                proof {
                    assert(p@ =~= u16_bytes(v) + rb@.subrange(0, i as int));
                }
            }
            proof {
                assert(p@ =~= u16_bytes(v) + rb@);
            }
            put_frame(data, 8, p.as_slice())
        },
        Message::Ping(bytes) => {
            if is_raw {
                proof {
                    assert(buf_bytes(*data) =~= buf_bytes(*old(data)) + encoded(m, is_raw));
                }
                return Ok(());
            }
            put_frame(data, 9, bytes.as_slice())
        },
        Message::Pong(bytes) => {
            if is_raw {
                proof {
                    assert(buf_bytes(*data) =~= buf_bytes(*old(data)) + encoded(m, is_raw));
                }
                return Ok(());
            }
            put_frame(data, 10, bytes.as_slice())
        },
        Message::Shutdown => {
            proof {
                assert(buf_bytes(*data) =~= buf_bytes(*old(data)) + encoded(m, is_raw));
            }
            Ok(())
        },
    }
}

/// Reads the first frame of `b`: the message and the number of bytes it takes,
/// `None` while the frame is incomplete, or the fatal framing error.
pub fn decode_frame(b: &[u8], settings: &Settings) -> (r: NetResult<Option<(Message, usize)>>)
    ensures
        r matches Ok(None) ==> decoded(b@, settings.onemsg_max_size as nat, settings.is_raw) == Decoded::Pending,
        r matches Ok(Some((m, n))) ==> decoded(b@, settings.onemsg_max_size as nat, settings.is_raw)
            == Decoded::Frame(m@, n as nat),
        r matches Err(e) ==> decoded(b@, settings.onemsg_max_size as nat, settings.is_raw)
            == Decoded::Failed(e),
{
    let len = b.len();
    if settings.is_raw {
        if len == 0 {
            return Ok(None);
        }
        let v = copy_range(b, 0, len);
        proof {
            assert(v@ =~= b@);
        }
        return Ok(Some((Message::Binary(v), len)));
    }
    if len < 4 {
        return Ok(None);
    }
    let length: usize = (b[0] as usize) * 65536 + (b[1] as usize) * 256 + b[2] as usize;
    if length < 4 {
        return Err(NetError::TooShort);
    }
    if length > settings.onemsg_max_size {
        return Err(NetError::OverMsgSize);
    }
    if len < length {
        return Ok(None);
    }
    let op = b[3];
    let val = copy_range(b, 4, length);
    if op == 1 {
        match string_from_utf8(val) {
            Some(t) => Ok(Some((Message::Text(t), length))),
            None => Err(NetError::BadText),
        }
    } else if op == 2 {
        Ok(Some((Message::Binary(val), length)))
    } else if op == 8 {
        if val.len() < 2 {
            return Err(NetError::TooShort);
        }
        let code: u16 = (val[0] as u16) * 256 + val[1] as u16;
        let rest = copy_range(val.as_slice(), 2, val.len());
        proof {
            assert(rest@ =~= val@.skip(2));
        }
        match string_from_utf8(rest) {
            Some(t) => Ok(Some((Message::Close(CloseCode::from_u16(code), t), length))),
            None => Err(NetError::BadText),
        }
    } else if op == 9 {
        Ok(Some((Message::Ping(val), length)))
    } else if op == 10 {
        Ok(Some((Message::Pong(val), length)))
    } else {
        Err(NetError::BadCode)
    }
}

/// Decodes the first message buffered in `data` and consumes its bytes.
/// Returns `None`, consuming nothing, while the frame is incomplete; a framing
/// error is fatal and consumes nothing.
pub fn decode_message(data: &mut BinaryMut, settings: &Settings) -> (r: NetResult<Option<Message>>)
    ensures
        r matches Ok(None) ==> decoded(buf_bytes(*old(data)), settings.onemsg_max_size as nat, settings.is_raw)
            == Decoded::Pending && buf_bytes(*final(data)) == buf_bytes(*old(data)),
        r matches Ok(Some(m)) ==> buf_bytes(*old(data)).len() >= buf_bytes(*final(data)).len()
            && decoded(buf_bytes(*old(data)), settings.onemsg_max_size as nat, settings.is_raw)
            == Decoded::Frame(m@, (buf_bytes(*old(data)).len() - buf_bytes(*final(data)).len()) as nat)
            && buf_bytes(*final(data)) == buf_bytes(*old(data)).skip(
                buf_bytes(*old(data)).len() - buf_bytes(*final(data)).len(),
            ),
        r matches Err(e) ==> decoded(buf_bytes(*old(data)), settings.onemsg_max_size as nat, settings.is_raw)
            == Decoded::Failed(e) && buf_bytes(*final(data)) == buf_bytes(*old(data)),
{
    let r = decode_frame(buf_chunk(data), settings);
    match r {
        Ok(Some((m, n))) => {
            proof {
                lemma_frame_within(buf_bytes(*data), settings.onemsg_max_size as nat, settings.is_raw);
            }
            buf_advance(data, n);
            Ok(Some(m))
        },
        Ok(None) => Ok(None),
        Err(e) => Err(e),
    }
}

/// A frame never takes more bytes than are buffered.
proof fn lemma_frame_within(b: Seq<u8>, max: nat, is_raw: bool)
    ensures
        decoded(b, max, is_raw) matches Decoded::Frame(_, n) ==> n <= b.len(),
{
}

proof fn lemma_u24_round_trip(v: nat)
    requires
        v < 0x1000000,
    ensures
        u24_value(u24_bytes(v)) == v,
{
    assert(u24_bytes(v)[0] as nat == v / 65536 % 256);
    assert(u24_bytes(v)[1] as nat == v / 256 % 256);
    assert(u24_bytes(v)[2] as nat == v % 256);
    assert(v / 65536 % 256 * 65536 + v / 256 % 256 * 256 + v % 256 == v) by (nonlinear_arith)
        requires
            v < 0x1000000,
    ;
}

/// Encoding a message that has a frame and decoding the front of the result,
/// whatever follows it, gives the message back and consumes exactly its frame.
pub proof fn lemma_encode_decode(m: MessageView, rest: Seq<u8>, max: nat)
    requires
        has_wire_form(m, false),
        wire_payload(m).len() + 4 <= max,
        wire_payload(m).len() + 4 <= MAX_FRAME_LENGTH,
    ensures
        decoded(encoded(m, false) + rest, max, false) == Decoded::Frame(m, encoded(m, false).len()),
{
    let p = wire_payload(m);
    let e = encoded(m, false);
    let b = e + rest;
    let l = p.len() + 4;
    lemma_u24_round_trip(l);
    assert(b.subrange(0, 3) =~= u24_bytes(l));
    assert(u24_value(b) == l);
    assert(b[3] == wire_opcode(m));
    assert(b.subrange(4, l as int) =~= p);
    match m {
        MessageView::Text(t) => {
            encode_utf8_valid_utf8(t);
            encode_utf8_decode_utf8(t);
        },
        MessageView::Close(c, r) => {
            assert(p.skip(2) =~= encode_utf8(r));
            encode_utf8_valid_utf8(r);
            encode_utf8_decode_utf8(r);
            assert((p[0] as nat * 256 + p[1] as nat) == c as nat);
        },
        _ => {},
    }
}

/// A close message survives the trip through its frame with the same code
/// value and the same reason, byte for byte.
pub proof fn lemma_close_round_trip(code: u16, reason: Seq<char>, rest: Seq<u8>, max: nat)
    requires
        encode_utf8(reason).len() + 6 <= max,
        encode_utf8(reason).len() + 6 <= MAX_FRAME_LENGTH,
    ensures
        decoded(encoded(MessageView::Close(code, reason), false) + rest, max, false)
            matches Decoded::Frame(MessageView::Close(c, r), _)
            && c == code && r == reason && encode_utf8(r) == encode_utf8(reason),
{
    lemma_encode_decode(MessageView::Close(code, reason), rest, max);
}

/// A decoded frame's payload is its declared length less the 4 header bytes.
pub proof fn lemma_decoded_payload_length(b: Seq<u8>, max: nat)
    ensures
        decoded(b, max, false) matches Decoded::Frame(m, n) ==> n == u24_value(b)
            && wire_payload(m).len() == n - 4,
{
    if b.len() >= 4 && 4 <= u24_value(b) <= max && u24_value(b) <= b.len() {
        let l = u24_value(b);
        let p = b.subrange(4, l as int);
        let op = b[3];
        if op == 1 && valid_utf8(p) {
            decode_utf8_encode_utf8(p);
        } else if op == 8 && p.len() >= 2 && valid_utf8(p.skip(2)) {
            decode_utf8_encode_utf8(p.skip(2));
        }
    }
}

} // verus!
