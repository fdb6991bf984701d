//! The per-connection engine of the length-prefixed transports (TCP, KCP).
//!
//! The engine owns the connection state and both buffers and makes every
//! decision; the host owns the transport, the handler, the command queue and
//! the clock. The host feeds the engine what happened (bytes read, bytes
//! written, a command, the time) and performs what the engine returns: a
//! handler callback to make, bytes to write, or the end of the connection.
use vstd::prelude::*;
use vstd::string::*;
use algorithm::buf::BinaryMut;
use crate::buffer::{buf_advance, buf_bytes, buf_chunk, buf_clear, buf_len, buf_new, buf_put_slice};
use crate::codec::{decode_message, decoded, encode_message, encoded, fits_header, Decoded};
use crate::error::{NetError, NetResult};
use crate::message::{close_code_value, CloseCode, Message, MessageView};
use crate::settings::Settings;

verus! {

/// Connection state of a length-prefixed transport.
#[derive(Debug, Clone, PartialEq, Eq)]
pub enum TcpState {
    Open,
    /// A close was begun with this code and reason; only the write buffer drains.
    Closing(CloseCode, String),
    Closed,
}

/// A handler callback, as recorded in the engine's history.
#[derive(Debug, Clone, Copy, PartialEq, Eq, Structural)]
pub enum Callback {
    Open,
    Message,
    Ping,
    Pong,
    Close,
}

/// What the host does after asking the engine for the next inbound message.
#[derive(Debug, PartialEq, Eq)]
pub enum Step {
    /// Nothing complete is buffered: read more.
    Idle,
    /// Hand a text or binary message to `on_message`.
    Deliver(Message),
    /// Call `on_ping`, then give its answer to `ping_reply`.
    Ping(Vec<u8>),
    /// Call `on_pong`.
    Pong(Vec<u8>),
    /// Call `on_close` with the peer's code and reason, then stop.
    Close(CloseCode, String),
    /// Stop without a callback.
    Stop,
}

/// The order that handler callbacks keep: `on_open` only first, message,
/// ping and pong callbacks only after it, `on_close` only last.
pub open spec fn callbacks_ordered(h: Seq<Callback>) -> bool {
    &&& forall|i: int| 0 <= i < h.len() && h[i] == Callback::Open ==> i == 0
    &&& forall|i: int|
        0 <= i < h.len() && (#[trigger] h[i] == Callback::Message || h[i] == Callback::Ping
            || h[i] == Callback::Pong) ==> h[0] == Callback::Open
    &&& forall|i: int| 0 <= i < h.len() && h[i] == Callback::Close ==> i == h.len() - 1
}

/// All bytes that the messages `s` encode to, in order.
pub open spec fn encoded_all(s: Seq<MessageView>, is_raw: bool) -> Seq<u8>
    decreases s.len(),
{
    if s.len() == 0 {
        Seq::empty()
    } else {
        encoded_all(s.drop_last(), is_raw) + encoded(s.last(), is_raw)
    }
}

proof fn lemma_encoded_all_push(s: Seq<MessageView>, m: MessageView, is_raw: bool)
    ensures
        encoded_all(s.push(m), is_raw) == encoded_all(s, is_raw) + encoded(m, is_raw),
{
    assert(s.push(m).drop_last() =~= s);
}

pub(crate) proof fn lemma_push_callback(h: Seq<Callback>, c: Callback)
    requires
        callbacks_ordered(h),
        !h.contains(Callback::Close),
        c == Callback::Open ==> h.len() == 0,
        (c == Callback::Message || c == Callback::Ping || c == Callback::Pong) ==> h.len() > 0
            && h[0] == Callback::Open,
    ensures
        callbacks_ordered(h.push(c)),
        h.push(c).contains(Callback::Close) == (c == Callback::Close),
{
    let g = h.push(c);
    assert forall|i: int| 0 <= i < g.len() && g[i] == Callback::Close implies i == g.len() - 1 by {
        if i < h.len() {
            assert(h[i] == Callback::Close);
            assert(h.contains(Callback::Close));
        }
    }
    if c == Callback::Close {
        assert(g[g.len() - 1] == Callback::Close);
    } else {
        assert forall|x: Callback| g.contains(x) implies h.contains(x) || x == c by {
            let i = choose|i: int| 0 <= i < g.len() && g[i] == x;
            if i < h.len() {
                assert(h[i] == x);
            }
        }
    }
}

/// How one engine call may change the engine: callbacks, sent messages and
/// written bytes only grow, nothing is added after the end, the connection
/// never reopens, and the settings stay.
pub open spec fn advances(a: Engine, b: Engine) -> bool {
    &&& a.history().is_prefix_of(b.history())
    &&& a.spec_finished() ==> b.spec_finished() && b.history() == a.history()
    &&& a.sent().is_prefix_of(b.sent())
    &&& a.wire().is_prefix_of(b.wire())
    &&& !(a.spec_state() is Open) ==> !(b.spec_state() is Open) && b.open_sent() == a.open_sent()
    &&& b.spec_settings() == a.spec_settings()
}

/// What beginning a close with `code` and `reason` does to an engine `a`,
/// giving `b` and the result `r`: nothing once the connection is closed;
/// otherwise a close frame is encoded and the state becomes `Closing(code,
/// reason)`, unless the frame does not fit its header.
pub open spec fn close_effect(
    a: Engine,
    b: Engine,
    r: NetResult<()>,
    code: CloseCode,
    reason: Seq<char>,
    now_ms: u64,
) -> bool {
    if a.spec_finished() || a.spec_state() is Closed {
        &&& r is Ok
        &&& b.sent() == a.sent()
        &&& b.out_bytes() == a.out_bytes()
        &&& b.spec_state() == a.spec_state()
    } else {
        let m = MessageView::Close(close_code_value(code), reason);
        let raw = a.spec_settings().is_raw;
        &&& (r is Ok <==> fits_header(m, raw))
        &&& r is Ok ==> b.sent() == a.sent().push(m) && b.out_bytes() == a.out_bytes() + encoded(m, raw)
            && (b.spec_state() matches TcpState::Closing(c, t) && c == code && t@ == reason)
            && b.spec_closing_since() == now_ms
        &&& r is Err ==> r == Err::<(), NetError>(NetError::OverMsgSize) && b.sent() == a.sent()
            && b.out_bytes() == a.out_bytes() && b.spec_state() == a.spec_state()
    }
}

/// The state of one length-prefixed connection. Besides the connection
/// state and the two buffers it keeps, as ghost state, the callbacks it asked
/// for, the messages it encoded and the bytes the transport took.
pub struct Engine {
    settings: Settings,
    state: TcpState,
    read: BinaryMut,
    write: BinaryMut,
    opened: bool,
    finished: bool,
    last_progress_ms: u64,
    closing_since_ms: u64,
    history: Ghost<Seq<Callback>>,
    sent: Ghost<Seq<MessageView>>,
    open_sent: Ghost<nat>,
    wire: Ghost<Seq<u8>>,
}

impl Engine {
    /// Handler callbacks the engine has asked for, in order.
    pub closed spec fn history(&self) -> Seq<Callback> {
        self.history@
    }

    /// Messages encoded into the write buffer, in order.
    pub closed spec fn sent(&self) -> Seq<MessageView> {
        self.sent@
    }

    /// How many of `sent` were encoded while the connection was open.
    pub closed spec fn open_sent(&self) -> nat {
        self.open_sent@
    }

    /// Bytes handed to the transport so far.
    pub closed spec fn wire(&self) -> Seq<u8> {
        self.wire@
    }

    /// Bytes waiting in the write buffer.
    pub closed spec fn out_bytes(&self) -> Seq<u8> {
        buf_bytes(self.write)
    }

    /// Bytes waiting in the read buffer.
    pub closed spec fn in_bytes(&self) -> Seq<u8> {
        buf_bytes(self.read)
    }

    pub closed spec fn spec_settings(&self) -> Settings {
        self.settings
    }

    pub closed spec fn spec_state(&self) -> TcpState {
        self.state
    }

    pub closed spec fn spec_finished(&self) -> bool {
        self.finished
    }

    /// Whether `on_open` has been asked for.
    pub closed spec fn spec_opened(&self) -> bool {
        self.opened
    }

    pub closed spec fn spec_last_progress(&self) -> u64 {
        self.last_progress_ms
    }

    pub closed spec fn spec_closing_since(&self) -> u64 {
        self.closing_since_ms
    }

    /// The engine's invariant.
    pub closed spec fn wf(&self) -> bool {
        &&& callbacks_ordered(self.history@)
        &&& self.opened == (self.history@.len() > 0 && self.history@[0] == Callback::Open)
        &&& self.history@.contains(Callback::Close) ==> self.finished
        &&& self.wire@ + buf_bytes(self.write) == encoded_all(self.sent@, self.settings.is_raw)
        &&& self.open_sent@ <= self.sent@.len()
        &&& (self.state is Open ==> self.open_sent@ == self.sent@.len())
        &&& forall|i: int| self.open_sent@ <= i < self.sent@.len() ==> self.sent@[i] is Close
    }

    /// A fresh open connection with empty buffers that has made no callback yet.
    pub fn new(settings: Settings, now_ms: u64) -> (r: Engine)
        ensures
            r.wf(),
            r.history() == Seq::<Callback>::empty(),
            r.sent() == Seq::<MessageView>::empty(),
            r.wire() == Seq::<u8>::empty(),
            r.out_bytes() == Seq::<u8>::empty(),
            r.in_bytes() == Seq::<u8>::empty(),
            r.spec_state() is Open,
            !r.spec_finished(),
            r.spec_settings() == settings,
            r.spec_last_progress() == now_ms,
    {
        let r = Engine {
            settings,
            state: TcpState::Open,
            read: buf_new(),
            write: buf_new(),
            opened: false,
            finished: false,
            last_progress_ms: now_ms,
            closing_since_ms: now_ms,
            history: Ghost(Seq::empty()),
            sent: Ghost(Seq::empty()),
            open_sent: Ghost(0),
            wire: Ghost(Seq::empty()),
        };
        proof {
            assert(r.wire@ + buf_bytes(r.write) =~= encoded_all(r.sent@, r.settings.is_raw));
        }
        r
    }
}

impl Engine {
    /// Asks for `on_open` once, the first time it is called on a live engine.
    pub fn open(&mut self) -> (r: bool)
        requires
            old(self).wf(),
        ensures
            final(self).wf(),
            advances(*old(self), *final(self)),
            r == (old(self).history().len() == 0 && !old(self).spec_finished()),
            r ==> final(self).history() == old(self).history().push(Callback::Open),
            !r ==> final(self).history() == old(self).history(),
            final(self).spec_opened() == (old(self).spec_opened() || r),
            final(self).in_bytes() == old(self).in_bytes(),
            final(self).out_bytes() == old(self).out_bytes(),
            final(self).spec_state() == old(self).spec_state(),
    {
        if self.opened || self.finished {
            proof {
                if !self.finished && self.history@.len() > 0 {
                    assert(self.history@[0] != Callback::Close);
                }
            }
            return false;
        }
        proof {
            if self.history@.len() > 0 {
                let c = self.history@[0];
                if c == Callback::Close {
                    assert(self.history@.contains(Callback::Close));
                }
            }
            lemma_push_callback(self.history@, Callback::Open);
            self.history@ = self.history@.push(Callback::Open);
        }
        self.opened = true;
        true
    }

    /// Appends bytes read from the peer. Reading goes on only while the
    /// connection is open; a read buffer already at its bound is fatal.
    pub fn received(&mut self, data: &[u8], now_ms: u64) -> (r: NetResult<()>)
        requires
            old(self).wf(),
        ensures
            final(self).wf(),
            advances(*old(self), *final(self)),
            final(self).history() == old(self).history(),
            final(self).out_bytes() == old(self).out_bytes(),
            final(self).spec_state() == old(self).spec_state(),
            final(self).spec_opened() == old(self).spec_opened(),
            r is Err <==> (old(self).spec_state() is Open && !old(self).spec_finished()
                && old(self).in_bytes().len() >= old(self).spec_settings().in_buffer_max),
            r matches Err(e) ==> e == NetError::OverInbufferSize,
            r is Err ==> final(self).in_bytes() == old(self).in_bytes(),
            r is Ok && old(self).spec_state() is Open && !old(self).spec_finished() ==>
                final(self).in_bytes() == old(self).in_bytes() + data@
                && final(self).in_bytes().len() < old(self).spec_settings().in_buffer_max + data@.len()
                && final(self).spec_last_progress() == now_ms,
            !(old(self).spec_state() is Open && !old(self).spec_finished()) ==>
                final(self).in_bytes() == old(self).in_bytes(),
    {
        if self.finished {
            return Ok(());
        }
        match self.state {
            TcpState::Open => {},
            _ => {
                return Ok(());
            },
        }
        if buf_len(&self.read) >= self.settings.in_buffer_max {
            return Err(NetError::OverInbufferSize);
        }
        buf_put_slice(&mut self.read, data);
        self.last_progress_ms = now_ms;
        Ok(())
    }

    /// Whether a command may be taken from the queue now: only while the
    /// write buffer holds fewer than `out_buffer_max` bytes.
    pub fn accepts_command(&self) -> (r: bool)
        ensures
            r == (self.out_bytes().len() < self.spec_settings().out_buffer_max),
    {
        buf_len(&self.write) < self.settings.out_buffer_max
    }

    /// The bytes waiting to be written, oldest first.
    pub fn pending_output(&self) -> (r: &[u8])
        ensures
            r@ == self.out_bytes(),
    {
        buf_chunk(&self.write)
    }

    /// Records that the transport took the first `n` pending bytes. Returns
    /// `true` when this drained a closing connection, which is then closed.
    /// Writing is no sign of life from the peer: the read clock stays.
    pub fn written(&mut self, n: usize) -> (r: bool)
        requires
            old(self).wf(),
            n <= old(self).out_bytes().len(),
        ensures
            final(self).wf(),
            advances(*old(self), *final(self)),
            final(self).history() == old(self).history(),
            final(self).sent() == old(self).sent(),
            final(self).wire() == old(self).wire() + old(self).out_bytes().take(n as int),
            final(self).out_bytes() == old(self).out_bytes().skip(n as int),
            final(self).in_bytes() == old(self).in_bytes(),
            final(self).spec_opened() == old(self).spec_opened(),
            final(self).spec_last_progress() == old(self).spec_last_progress(),
            r == (old(self).spec_state() is Closing && n == old(self).out_bytes().len()),
            r ==> final(self).spec_state() is Closed,
            !r ==> final(self).spec_state() == old(self).spec_state(),
    {
        let ghost before = buf_bytes(self.write);
        buf_advance(&mut self.write, n);
        proof {
            self.wire@ = self.wire@ + before.take(n as int);
            assert(self.wire@ + buf_bytes(self.write) =~= old(self).wire@ + before);
        }
        if buf_len(&self.write) == 0 {
            buf_clear(&mut self.write);
            proof {
                assert(buf_bytes(self.write) =~= before.skip(n as int));
            }
        }
        let drained = buf_len(&self.write) == 0;
        match self.state {
            TcpState::Closing(_, _) => {
                if drained {
                    self.state = TcpState::Closed;
                    return true;
                }
                false
            },
            _ => false,
        }
    }

    /// The peer ended the stream: the connection stops without a callback.
    pub fn peer_closed(&mut self)
        requires
            old(self).wf(),
        ensures
            final(self).wf(),
            advances(*old(self), *final(self)),
            final(self).history() == old(self).history(),
            final(self).spec_finished(),
            final(self).out_bytes() == old(self).out_bytes(),
            final(self).in_bytes() == old(self).in_bytes(),
    {
        self.finished = true;
    }

    /// The engine failed: asks for `on_close(Error, "NetError")` unless the
    /// connection already ended.
    pub fn fail(&mut self) -> (r: bool)
        requires
            old(self).wf(),
        ensures
            final(self).wf(),
            advances(*old(self), *final(self)),
            final(self).spec_finished(),
            r == !old(self).spec_finished(),
            r ==> final(self).history() == old(self).history().push(Callback::Close),
            !r ==> final(self).history() == old(self).history(),
    {
        if self.finished {
            return false;
        }
        proof {
            lemma_push_callback(self.history@, Callback::Close);
            self.history@ = self.history@.push(Callback::Close);
        }
        self.finished = true;
        true
    }

    pub fn state(&self) -> (r: &TcpState)
        ensures
            *r == self.spec_state(),
    {
        &self.state
    }

    pub fn is_finished(&self) -> (r: bool)
        ensures
            r == self.spec_finished(),
    {
        self.finished
    }

    pub fn get_settings(&self) -> (r: &Settings)
        ensures
            *r == self.spec_settings(),
    {
        &self.settings
    }
}

impl Engine {
    /// Encodes one message into the write buffer and records it as sent.
    fn send(&mut self, msg: Message) -> (r: NetResult<()>)
        requires
            old(self).wf(),
            !(old(self).spec_state() is Open) ==> msg@ is Close,
        ensures
            final(self).wf(),
            advances(*old(self), *final(self)),
            final(self).history() == old(self).history(),
            final(self).wire() == old(self).wire(),
            final(self).in_bytes() == old(self).in_bytes(),
            final(self).spec_state() == old(self).spec_state(),
            final(self).spec_finished() == old(self).spec_finished(),
            final(self).spec_opened() == old(self).spec_opened(),
            final(self).spec_last_progress() == old(self).spec_last_progress(),
            final(self).spec_closing_since() == old(self).spec_closing_since(),
            r is Ok <==> fits_header(msg@, old(self).spec_settings().is_raw),
            r is Ok ==> final(self).sent() == old(self).sent().push(msg@) && final(self).out_bytes()
                == old(self).out_bytes() + encoded(msg@, old(self).spec_settings().is_raw),
            r is Err ==> final(self).sent() == old(self).sent() && final(self).out_bytes()
                == old(self).out_bytes(),
            r matches Err(e) ==> e == NetError::OverMsgSize,
    {
        let ghost m = msg@;
        let r = encode_message(&mut self.write, msg, self.settings.is_raw);
        if r.is_ok() {
            proof {
                lemma_encoded_all_push(self.sent@, m, self.settings.is_raw);
                self.sent@ = self.sent@.push(m);
                if self.state is Open {
                    self.open_sent@ = self.open_sent@ + 1;
                }
                assert(self.wire@ + buf_bytes(self.write) =~= encoded_all(self.sent@, self.settings.is_raw));
                assert forall|i: int| self.open_sent@ <= i < self.sent@.len() implies self.sent@[i] is Close by {
                    if i < old(self).sent@.len() {
                        assert(self.sent@[i] == old(self).sent@[i]);
                    }
                }
                assert(old(self).sent@.is_prefix_of(self.sent@));
            }
        }
        r
    }

    /// Decodes the next buffered message and says what the host does with it.
    /// Nothing is decoded before `on_open` or once the connection stops
    /// reading; a remote close ends the connection.
    pub fn next_step(&mut self) -> (r: NetResult<Step>)
        requires
            old(self).wf(),
        ensures
            final(self).wf(),
            advances(*old(self), *final(self)),
            final(self).out_bytes() == old(self).out_bytes(),
            final(self).spec_opened() == old(self).spec_opened(),
            old(self).spec_finished() ==> (r matches Ok(Step::Stop)) && final(self).history() == old(self).history(),
            !(old(self).spec_state() is Open) ==> r is Ok && final(self).history() == old(self).history()
                && final(self).in_bytes() == old(self).in_bytes(),
            old(self).spec_state() is Closed ==> (r matches Ok(Step::Stop)) && final(self).spec_finished()
                && final(self).spec_state() is Closed,
            r is Err ==> final(self).spec_finished() == old(self).spec_finished() && final(self).spec_state()
                == old(self).spec_state() && final(self).history() == old(self).history(),
            old(self).spec_state() is Closing && !old(self).spec_finished() ==> r matches Ok(Step::Idle),
            !old(self).spec_opened() && !old(self).spec_finished() && old(self).spec_state() is Open
                ==> (r matches Ok(Step::Idle)) && final(self).history() == old(self).history()
                && final(self).in_bytes() == old(self).in_bytes(),
            (r matches Ok(Step::Idle)) || (r matches Ok(Step::Deliver(_))) || (r matches Ok(Step::Ping(_)))
                || (r matches Ok(Step::Pong(_))) ==> final(self).spec_state() == old(self).spec_state()
                && final(self).spec_finished() == old(self).spec_finished(),
            old(self).spec_opened() && !old(self).spec_finished() && old(self).spec_state() is Open ==> {
                let d = decoded(old(self).in_bytes(), old(self).spec_settings().onemsg_max_size as nat,
                    old(self).spec_settings().is_raw);
                let used = (old(self).in_bytes().len() - final(self).in_bytes().len()) as nat;
                &&& r matches Ok(Step::Idle) ==> d == Decoded::Pending
                    && final(self).history() == old(self).history()
                &&& r matches Err(e) ==> d == Decoded::Failed(e)
                    && final(self).history() == old(self).history()
                &&& r matches Ok(Step::Deliver(m)) ==> (m@ is Text || m@ is Binary)
                    && d == Decoded::Frame(m@, used)
                    && final(self).history() == old(self).history().push(Callback::Message)
                &&& r matches Ok(Step::Ping(p)) ==> d == Decoded::Frame(MessageView::Ping(p@), used)
                    && final(self).history() == old(self).history().push(Callback::Ping)
                &&& r matches Ok(Step::Pong(p)) ==> d == Decoded::Frame(MessageView::Pong(p@), used)
                    && final(self).history() == old(self).history().push(Callback::Pong)
                &&& r matches Ok(Step::Close(c, reason)) ==> d == Decoded::Frame(
                    MessageView::Close(crate::message::close_code_value(c), reason@), used)
                    && final(self).history() == old(self).history().push(Callback::Close)
                    && final(self).spec_finished() && final(self).spec_state() is Closed
                &&& !(r matches Ok(Step::Stop))
                &&& final(self).in_bytes() == old(self).in_bytes().skip(used as int)
            },
    {
        if self.finished {
            return Ok(Step::Stop);
        }
        match self.state {
            TcpState::Open => {},
            TcpState::Closing(_, _) => {
                return Ok(Step::Idle);
            },
            TcpState::Closed => {
                self.finished = true;
                return Ok(Step::Stop);
            },
        }
        if !self.opened {
            return Ok(Step::Idle);
        }
        proof {
            assert(self.history@[0] == Callback::Open);
            if self.history@.contains(Callback::Close) {
                assert(self.finished);
            }
        }
        let d = decode_message(&mut self.read, &self.settings);
        match d {
            Err(e) => Err(e),
            Ok(None) => Ok(Step::Idle),
            Ok(Some(m)) => {
                match m {
                    Message::Text(_) => {
                        proof {
                            lemma_push_callback(self.history@, Callback::Message);
                            self.history@ = self.history@.push(Callback::Message);
                        }
                        Ok(Step::Deliver(m))
                    },
                    Message::Binary(_) => {
                        proof {
                            lemma_push_callback(self.history@, Callback::Message);
                            self.history@ = self.history@.push(Callback::Message);
                        }
                        Ok(Step::Deliver(m))
                    },
                    Message::Ping(p) => {
                        proof {
                            lemma_push_callback(self.history@, Callback::Ping);
                            self.history@ = self.history@.push(Callback::Ping);
                        }
                        Ok(Step::Ping(p))
                    },
                    Message::Pong(p) => {
                        proof {
                            lemma_push_callback(self.history@, Callback::Pong);
                            self.history@ = self.history@.push(Callback::Pong);
                        }
                        Ok(Step::Pong(p))
                    },
                    Message::Close(c, reason) => {
                        proof {
                            lemma_push_callback(self.history@, Callback::Close);
                            self.history@ = self.history@.push(Callback::Close);
                        }
                        self.finished = true;
                        self.state = TcpState::Closed;
                        Ok(Step::Close(c, reason))
                    },
                    Message::Shutdown => {
                        proof {
                            assert(false);
                        }
                        Ok(Step::Idle)
                    },
                }
            },
        }
    }
}

impl Engine {
    /// Begins an orderly close: encodes a close frame (nothing in raw mode)
    /// and enters `Closing`. Nothing happens once the connection is closed.
    pub fn close(&mut self, code: CloseCode, reason: String, now_ms: u64) -> (r: NetResult<()>)
        requires
            old(self).wf(),
        ensures
            final(self).wf(),
            advances(*old(self), *final(self)),
            final(self).history() == old(self).history(),
            final(self).wire() == old(self).wire(),
            final(self).in_bytes() == old(self).in_bytes(),
            final(self).spec_opened() == old(self).spec_opened(),
            close_effect(*old(self), *final(self), r, code, reason@, now_ms),
            old(self).spec_finished() || old(self).spec_state() is Closed ==> r is Ok
                && final(self).sent() == old(self).sent() && final(self).spec_state() == old(self).spec_state(),
            !old(self).spec_finished() && !(old(self).spec_state() is Closed) ==> {
                let m = MessageView::Close(crate::message::close_code_value(code), reason@);
                &&& (r is Ok <==> fits_header(m, old(self).spec_settings().is_raw))
                &&& r is Ok ==> final(self).sent() == old(self).sent().push(m)
                    && final(self).out_bytes() == old(self).out_bytes() + encoded(
                    m, old(self).spec_settings().is_raw)
                    && final(self).spec_state() == TcpState::Closing(code, reason)
                    && final(self).spec_closing_since() == now_ms
                &&& r matches Err(e) ==> e == NetError::OverMsgSize && final(self).sent() == old(self).sent()
            },
    {
        if self.finished {
            return Ok(());
        }
        match self.state {
            TcpState::Closed => {
                return Ok(());
            },
            _ => {},
        }
        let msg = Message::Close(code, reason.clone());
        let r = self.send(msg);
        if r.is_err() {
            return r;
        }
        self.state = TcpState::Closing(code, reason);
        self.closing_since_ms = now_ms;
        Ok(())
    }

    /// Handles the handler's answer to a ping: a pong with the returned bytes
    /// is written while the connection is open; nothing otherwise.
    pub fn ping_reply(&mut self, reply: Option<Vec<u8>>) -> (r: NetResult<()>)
        requires
            old(self).wf(),
        ensures
            final(self).wf(),
            advances(*old(self), *final(self)),
            final(self).history() == old(self).history(),
            final(self).wire() == old(self).wire(),
            final(self).in_bytes() == old(self).in_bytes(),
            final(self).spec_state() == old(self).spec_state(),
            final(self).spec_opened() == old(self).spec_opened(),
            match reply {
                Some(d) if old(self).spec_state() is Open && !old(self).spec_finished() => {
                    let m = MessageView::Pong(d@);
                    &&& (r is Ok <==> fits_header(m, old(self).spec_settings().is_raw))
                    &&& r is Ok ==> final(self).sent() == old(self).sent().push(m)
                        && final(self).out_bytes() == old(self).out_bytes() + encoded(
                        m, old(self).spec_settings().is_raw)
                    &&& r matches Err(e) ==> e == NetError::OverMsgSize
                },
                _ => r is Ok && final(self).sent() == old(self).sent() && final(self).out_bytes()
                    == old(self).out_bytes(),
            },
    {
        match reply {
            None => Ok(()),
            Some(d) => {
                if self.finished {
                    return Ok(());
                }
                match self.state {
                    TcpState::Open => self.send(Message::Pong(d)),
                    _ => Ok(()),
                }
            },
        }
    }

    /// Handles one command from the queue: `Close` begins a close, `Shutdown`
    /// begins one with `Away`/"Shutdown", anything else is encoded while the
    /// connection is open and dropped silently after.
    pub fn command(&mut self, msg: Message, now_ms: u64) -> (r: NetResult<()>)
        requires
            old(self).wf(),
        ensures
            final(self).wf(),
            advances(*old(self), *final(self)),
            final(self).history() == old(self).history(),
            final(self).wire() == old(self).wire(),
            final(self).in_bytes() == old(self).in_bytes(),
            final(self).spec_opened() == old(self).spec_opened(),
            !(msg@ is Close || msg@ is Shutdown) ==> {
                if old(self).spec_state() is Open && !old(self).spec_finished() {
                    &&& (r is Ok <==> fits_header(msg@, old(self).spec_settings().is_raw))
                    &&& r is Ok ==> final(self).sent() == old(self).sent().push(msg@)
                        && final(self).out_bytes() == old(self).out_bytes() + encoded(
                        msg@, old(self).spec_settings().is_raw)
                    &&& r matches Err(e) ==> e == NetError::OverMsgSize
                    &&& final(self).spec_state() == old(self).spec_state()
                } else {
                    &&& r is Ok
                    &&& final(self).sent() == old(self).sent()
                    &&& final(self).out_bytes() == old(self).out_bytes()
                    &&& final(self).spec_state() == old(self).spec_state()
                }
            },
            msg matches Message::Close(c, reason) ==> close_effect(*old(self), *final(self), r, c, reason@, now_ms),
            msg is Shutdown ==> close_effect(*old(self), *final(self), r, CloseCode::Away, "Shutdown"@, now_ms),
    {
        match msg {
            Message::Close(code, reason) => self.close(code, reason, now_ms),
            Message::Shutdown => {
                proof {
                    reveal_strlit("Shutdown");
                }
                self.close(CloseCode::Away, String::from_str("Shutdown"), now_ms)
            },
            other => {
                if self.finished {
                    return Ok(());
                }
                match self.state {
                    TcpState::Open => self.send(other),
                    _ => Ok(()),
                }
            },
        }
    }

    /// Checks the deadlines at time `now_ms`. An open connection whose peer
    /// has been silent for `read_timeout` fails with `ReadTimeout`; a closing
    /// one is forced closed after `closing_time`. Returns `true` when the
    /// connection is closed and the host stops.
    pub fn check_timeout(&mut self, now_ms: u64) -> (r: NetResult<bool>)
        requires
            old(self).wf(),
        ensures
            final(self).wf(),
            advances(*old(self), *final(self)),
            final(self).history() == old(self).history(),
            final(self).sent() == old(self).sent(),
            final(self).wire() == old(self).wire(),
            final(self).in_bytes() == old(self).in_bytes(),
            final(self).out_bytes() == old(self).out_bytes(),
            final(self).spec_opened() == old(self).spec_opened(),
            old(self).spec_finished() ==> r == Ok::<bool, NetError>(true),
            !old(self).spec_finished() && old(self).spec_state() is Open ==> (r is Err <==> (now_ms
                >= old(self).spec_last_progress() && now_ms - old(self).spec_last_progress()
                >= old(self).spec_settings().read_timeout)),
            !old(self).spec_finished() && old(self).spec_state() is Open ==> r != Ok::<bool, NetError>(true),
            r matches Err(e) ==> e == NetError::ReadTimeout,
            !old(self).spec_finished() && old(self).spec_state() is Closing ==> r is Ok && (r
                == Ok::<bool, NetError>(true) <==> (now_ms >= old(self).spec_closing_since() && now_ms
                - old(self).spec_closing_since() >= old(self).spec_settings().closing_time)),
            r == Ok::<bool, NetError>(true) && !old(self).spec_finished() ==> final(self).spec_state() is Closed,
            r != Ok::<bool, NetError>(true) ==> final(self).spec_state() == old(self).spec_state(),
            !old(self).spec_finished() && old(self).spec_state() is Closed ==> r == Ok::<bool, NetError>(true),
    {
        if self.finished {
            return Ok(true);
        }
        match self.state {
            TcpState::Open => {
                if now_ms >= self.last_progress_ms && now_ms - self.last_progress_ms
                    >= self.settings.read_timeout as u64 {
                    Err(NetError::ReadTimeout)
                } else {
                    Ok(false)
                }
            },
            TcpState::Closing(_, _) => {
                if now_ms >= self.closing_since_ms && now_ms - self.closing_since_ms
                    >= self.settings.closing_time as u64 {
                    self.state = TcpState::Closed;
                    Ok(true)
                } else {
                    Ok(false)
                }
            },
            TcpState::Closed => Ok(true),
        }
    }
}

/// `on_open` is asked for at most once, as the very first callback, and
/// every message, ping and pong callback comes after it.
pub proof fn lemma_open_first(e: Engine)
    requires
        e.wf(),
    ensures
        forall|i: int| 0 <= i < e.history().len() && e.history()[i] == Callback::Open ==> i == 0,
        forall|i: int|
            0 <= i < e.history().len() && (#[trigger] e.history()[i] == Callback::Message
                || e.history()[i] == Callback::Ping || e.history()[i] == Callback::Pong) ==> 0 < i
                && e.history()[0] == Callback::Open,
{
}

/// `on_close` is asked for at most once and as the last callback: an engine
/// that has asked for it asks for nothing more, whatever calls follow.
pub proof fn lemma_close_last(a: Engine, b: Engine)
    requires
        a.wf(),
        advances(a, b),
        a.history().contains(Callback::Close),
    ensures
        forall|i: int| 0 <= i < a.history().len() && a.history()[i] == Callback::Close ==> i == a.history().len() - 1,
        b.history() == a.history(),
{
}

/// Once the connection has left `Open`, every message encoded for the
/// transport is a close frame: no text, binary, ping or pong follows.
pub proof fn lemma_only_close_after_closing(a: Engine, b: Engine)
    requires
        a.wf(),
        b.wf(),
        advances(a, b),
        !(a.spec_state() is Open),
    ensures
        forall|i: int| a.sent().len() <= i < b.sent().len() ==> (#[trigger] b.sent()[i]) is Close,
{
    assert(b.open_sent() == a.open_sent());
    assert forall|i: int| a.sent().len() <= i < b.sent().len() implies (#[trigger] b.sent()[i]) is Close by {
        assert(b.open_sent() <= a.sent().len());
    }
}

/// Every byte handed to the transport, followed by what still waits in the
/// write buffer, is the encoding of the sent messages in order.
pub proof fn lemma_output_in_order(e: Engine)
    requires
        e.wf(),
    ensures
        e.wire() + e.out_bytes() == encoded_all(e.sent(), e.spec_settings().is_raw),
{
}

} // verus!
