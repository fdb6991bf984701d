//! WebSocket data frames, read and written by webparse's frame codec.
//! A client masks each frame it writes with a fresh 4-byte key; a server
//! writes unmasked frames.
use vstd::prelude::*;
use webparse::ws::DataFrame;
use crate::codec::{u16_bytes, wire_opcode, wire_payload};
use crate::error::{NetError, NetResult};
use crate::message::{close_code_of, CloseCode, Message, MessageView};

verus! {

#[verifier::external_type_specification]
#[verifier::external_body]
pub struct ExDataFrame(DataFrame);

/// Largest payload of one WebSocket message accepted from the peer.
pub const WS_MESSAGE_LIMIT: usize = 100000;

/// The bytes of one final WebSocket frame with tag `op`, payload `payload`,
/// masked with `mask` when one is given.
pub uninterp spec fn ws_frame_bytes(op: u8, payload: Seq<u8>, mask: Option<[u8; 4]>) -> Seq<u8>;

/// What the frame reader found at the front of the buffered bytes.
pub enum FrameRead {
    /// A frame, and how many bytes are left after it.
    Frame(DataFrame, usize),
    /// The frame is not complete yet.
    Incomplete,
    /// The bytes are no valid frame.
    Failed(String),
}

/// A reassembled message as webparse gives it.
pub enum WsPayload {
    Text(String),
    Binary(Vec<u8>),
    /// A close frame with a status code and reason.
    Close(u16, String),
    /// A close frame without a body.
    CloseEmpty,
    Ping(Vec<u8>),
    Pong(Vec<u8>),
    Failed(String),
}

/// Relies on webparse's `DataFrame::read_dataframe_with_limit` over a byte
/// slice, which advances the slice past what it reads: a frame takes at least
/// its 2 header bytes; an `UnexpectedEof` error means the frame is incomplete.
#[verifier::external_body]
fn read_frame_raw(b: &[u8], limit: usize) -> (r: FrameRead)
    ensures
        r matches FrameRead::Frame(_, left) ==> left + 2 <= b@.len(),
{
    let mut c: &[u8] = b;
    match DataFrame::read_dataframe_with_limit(&mut c, false, limit) {
        Ok(f) => FrameRead::Frame(f, c.len()),
        Err(webparse::WebError::Io(e)) if e.kind() == std::io::ErrorKind::UnexpectedEof => FrameRead::Incomplete,
        Err(e) => FrameRead::Failed(e.to_string()),
    }
}

/// Relies on webparse's `OwnedMessage::from_dataframes`: joins the frames
/// of one message; each variant of the result is passed on as it is.
#[verifier::external_body]
fn message_of_frames(frames: Vec<DataFrame>) -> WsPayload {
    match webparse::ws::OwnedMessage::from_dataframes(frames) {
        Ok(webparse::ws::OwnedMessage::Text(t)) => WsPayload::Text(t),
        Ok(webparse::ws::OwnedMessage::Binary(v)) => WsPayload::Binary(v),
        Ok(webparse::ws::OwnedMessage::Close(Some(c))) => WsPayload::Close(c.status_code, c.reason),
        Ok(webparse::ws::OwnedMessage::Close(None)) => WsPayload::CloseEmpty,
        Ok(webparse::ws::OwnedMessage::Ping(v)) => WsPayload::Ping(v),
        Ok(webparse::ws::OwnedMessage::Pong(v)) => WsPayload::Pong(v),
        Err(e) => WsPayload::Failed(e.to_string()),
    }
}

/// Relies on webparse's `DataFrame::new` and `DataFrameable::write_to` for a
/// final frame: `write_header` refuses a control frame (tag 8 and up) whose
/// payload is 126 bytes or more before anything is written; otherwise the
/// frame is appended. `Opcode::new` takes every tag up to 15.
#[verifier::external_body]
fn write_frame(out: &mut Vec<u8>, op: u8, payload: Vec<u8>, mask: Option<[u8; 4]>) -> (r: Result<(), String>)
    requires
        op <= 15,
    ensures
        r is Ok <==> !(op >= 8 && payload@.len() >= 126),
        r is Ok ==> final(out)@ == old(out)@ + ws_frame_bytes(op, payload@, mask),
        r is Err ==> final(out)@ == old(out)@,
{
    let frame = DataFrame::new(true, webparse::ws::Opcode::new(op).unwrap(), payload);
    webparse::ws::DataFrameable::write_to(&frame, out, mask).map(|_| ()).map_err(|e| e.to_string())
}

/// Reads the first frame of `b`: the frame and the number of bytes it took,
/// or `None` while it is incomplete.
pub fn read_ws_frame(b: &[u8]) -> (r: NetResult<Option<(DataFrame, usize)>>)
    ensures
        r matches Ok(Some((_, n))) ==> 2 <= n <= b@.len(),
        r is Err ==> (r matches Err(NetError::Web(_))),
{
    match read_frame_raw(b, WS_MESSAGE_LIMIT) {
        FrameRead::Frame(f, left) => Ok(Some((f, b.len() - left))),
        FrameRead::Incomplete => Ok(None),
        FrameRead::Failed(e) => Err(NetError::Web(e)),
    }
}

/// The library's message for a reassembled WebSocket message; a close
/// without a body reads as `Normal` with an empty reason.
pub fn ws_message(p: WsPayload) -> (r: NetResult<Message>)
    ensures
        p matches WsPayload::Text(t) ==> r == Ok::<Message, NetError>(Message::Text(t)),
        p matches WsPayload::Binary(v) ==> r == Ok::<Message, NetError>(Message::Binary(v)),
        p matches WsPayload::Close(c, t) ==> r == Ok::<Message, NetError>(Message::Close(close_code_of(c), t)),
        p is CloseEmpty ==> (r matches Ok(Message::Close(c, t)) && c == CloseCode::Normal && t@.len() == 0),
        p matches WsPayload::Ping(v) ==> r == Ok::<Message, NetError>(Message::Ping(v)),
        p matches WsPayload::Pong(v) ==> r == Ok::<Message, NetError>(Message::Pong(v)),
        p matches WsPayload::Failed(e) ==> r == Err::<Message, NetError>(NetError::Web(e)),
{
    match p {
        WsPayload::Text(t) => Ok(Message::Text(t)),
        WsPayload::Binary(v) => Ok(Message::Binary(v)),
        WsPayload::Close(c, t) => Ok(Message::Close(CloseCode::from_u16(c), t)),
        WsPayload::CloseEmpty => Ok(Message::Close(CloseCode::Normal, String::new())),
        WsPayload::Ping(v) => Ok(Message::Ping(v)),
        WsPayload::Pong(v) => Ok(Message::Pong(v)),
        WsPayload::Failed(e) => Err(NetError::Web(e)),
    }
}

/// Joins the frames of one message into the library's message.
pub fn frames_to_message(frames: Vec<DataFrame>) -> NetResult<Message> {
    ws_message(message_of_frames(frames))
}

/// The WebSocket tag of a message; `Shutdown` goes out as a bodiless close.
pub open spec fn ws_opcode(m: MessageView) -> u8 {
    if m is Shutdown {
        8
    } else {
        wire_opcode(m)
    }
}

/// Copies a byte slice into a vector.
fn bytes_of(b: &[u8]) -> (r: Vec<u8>)
    ensures
        r@ == b@,
{
    let mut r: Vec<u8> = Vec::new();
    let mut i: usize = 0;
    while i < b.len()
        invariant
            i <= b@.len(),
            r@ == b@.subrange(0, i as int),
        decreases b@.len() - i,
    {
        r.push(b[i]);
        i = i + 1;
    }
    proof {
        assert(r@ =~= b@);
    }
    r
}

/// Appends the WebSocket frame of `msg` to `out`, masked with `mask` when
/// one is given. A control frame with a payload of 126 bytes or more is
/// refused and nothing is appended.
pub fn ws_encode(out: &mut Vec<u8>, msg: Message, mask: Option<[u8; 4]>) -> (r: NetResult<()>)
    ensures
        r is Ok <==> !(ws_opcode(msg@) >= 8 && wire_payload(msg@).len() >= 126),
        r is Ok ==> final(out)@ == old(out)@ + ws_frame_bytes(ws_opcode(msg@), wire_payload(msg@), mask),
        r is Err ==> final(out)@ == old(out)@ && (r matches Err(NetError::Web(_))),
{
    let ghost m = msg@;
    let (op, payload): (u8, Vec<u8>) = match msg {
        Message::Text(t) => (1, bytes_of(t.as_str().as_bytes())),
        Message::Binary(v) => (2, v),
        Message::Close(code, reason) => {
            let v = code.to_u16();
            let mut p: Vec<u8> = Vec::new();
            p.push((v / 256) as u8);
            p.push((v % 256) as u8);
            let rb = reason.as_str().as_bytes();
            let mut i: usize = 0;
            while i < rb.len()
                invariant
                    i <= rb@.len(),
                    p@ == u16_bytes(v) + rb@.subrange(0, i as int),
                decreases rb@.len() - i,
            {
                p.push(rb[i]);
                i = i + 1;
                proof {
                    assert(p@ =~= u16_bytes(v) + rb@.subrange(0, i as int));
                }
            }
            proof {
                assert(p@ =~= u16_bytes(v) + rb@);
            }
            (8, p)
        },
        Message::Ping(v) => (9, v),
        Message::Pong(v) => (10, v),
        Message::Shutdown => {
            let p: Vec<u8> = Vec::new();
            proof {
                assert(p@ =~= wire_payload(m));
            }
            (8, p)
        },
    };
    match write_frame(out, op, payload, mask) {
        Ok(()) => Ok(()),
        Err(e) => Err(NetError::Web(e)),
    }
}

} // verus!
