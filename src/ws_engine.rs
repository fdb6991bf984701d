//! The decisions of a WebSocket connection. The host parses HTTP and
//! WebSocket frames and owns the buffers and the socket; the engine decides
//! when `on_open` fires, what each inbound message becomes, which outbound
//! messages are framed, and when the connection ends.
use vstd::prelude::*;
use vstd::string::*;
use crate::engine::{callbacks_ordered, lemma_push_callback, Callback, Step};
use crate::error::{NetError, NetResult};
use crate::message::{close_code_value, CloseCode, Message, MessageView};
use crate::settings::Settings;
use crate::ws_state::WsState;

verus! {

pub open spec fn ws_is_open(s: WsState) -> bool {
    !(s is Closing || s is Closed)
}

/// What beginning a close with `code` and `reason` does to a WebSocket
/// engine `a`, giving `b` and the returned frame `r`: a closing or closed
/// connection stays as it is; any other enters `Closing(code, reason)`, and
/// only an open one returns a close frame to write.
pub open spec fn ws_close_effect(
    a: WsEngine,
    b: WsEngine,
    r: Option<Message>,
    code: CloseCode,
    reason: Seq<char>,
    now_ms: u64,
) -> bool {
    if !ws_is_open(a.spec_state()) {
        &&& r is None
        &&& b.spec_state() == a.spec_state()
        &&& b.sent() == a.sent()
    } else {
        &&& (b.spec_state() matches WsState::Closing(c, t) && c == code && t@ == reason)
        &&& b.spec_phase_since() == now_ms
        &&& a.spec_state() is Open ==> (r matches Some(Message::Close(c, t)) && c == code && t@ == reason)
            && b.sent() == a.sent().push(MessageView::Close(close_code_value(code), reason))
        &&& !(a.spec_state() is Open) ==> r is None && b.sent() == a.sent()
    }
}

/// The state of one WebSocket connection, with the callbacks it asked for
/// and the messages it handed out for framing as ghost state.
pub struct WsEngine {
    settings: Settings,
    state: WsState,
    opened: bool,
    finished: bool,
    last_progress_ms: u64,
    phase_since_ms: u64,
    history: Ghost<Seq<Callback>>,
    sent: Ghost<Seq<MessageView>>,
    open_sent: Ghost<nat>,
}

/// How one call may change a WebSocket engine: callbacks and framed messages
/// only grow, nothing follows the end, a closing connection never reopens.
pub open spec fn ws_advances(a: WsEngine, b: WsEngine) -> bool {
    &&& a.history().is_prefix_of(b.history())
    &&& a.spec_finished() ==> b.spec_finished() && b.history() == a.history()
    &&& a.sent().is_prefix_of(b.sent())
    &&& !ws_is_open(a.spec_state()) ==> !ws_is_open(b.spec_state()) && b.open_sent() == a.open_sent()
    &&& b.spec_settings() == a.spec_settings()
}

impl WsEngine {
    pub closed spec fn history(&self) -> Seq<Callback> {
        self.history@
    }

    /// Messages handed to the host for framing, in order.
    pub closed spec fn sent(&self) -> Seq<MessageView> {
        self.sent@
    }

    pub closed spec fn open_sent(&self) -> nat {
        self.open_sent@
    }

    pub closed spec fn spec_state(&self) -> WsState {
        self.state
    }

    pub closed spec fn spec_finished(&self) -> bool {
        self.finished
    }

    pub closed spec fn spec_opened(&self) -> bool {
        self.opened
    }

    pub closed spec fn spec_settings(&self) -> Settings {
        self.settings
    }

    pub closed spec fn spec_last_progress(&self) -> u64 {
        self.last_progress_ms
    }

    pub closed spec fn spec_phase_since(&self) -> u64 {
        self.phase_since_ms
    }

    pub closed spec fn wf(&self) -> bool {
        &&& callbacks_ordered(self.history@)
        &&& self.opened == (self.history@.len() > 0 && self.history@[0] == Callback::Open)
        &&& self.history@.contains(Callback::Close) ==> self.finished
        &&& self.open_sent@ <= self.sent@.len()
        &&& (ws_is_open(self.state) ==> self.open_sent@ == self.sent@.len())
        &&& forall|i: int| self.open_sent@ <= i < self.sent@.len() ==> self.sent@[i] is Close
    }

    /// A connection whose handshake is pending.
    pub fn new(settings: Settings, now_ms: u64) -> (r: WsEngine)
        ensures
            r.wf(),
            r.history() == Seq::<Callback>::empty(),
            r.sent() == Seq::<MessageView>::empty(),
            r.spec_state() is Wait,
            !r.spec_finished(),
            r.spec_settings() == settings,
            r.spec_phase_since() == now_ms,
            r.spec_last_progress() == now_ms,
    {
        WsEngine {
            settings,
            state: WsState::Wait,
            opened: false,
            finished: false,
            last_progress_ms: now_ms,
            phase_since_ms: now_ms,
            history: Ghost(Seq::empty()),
            sent: Ghost(Seq::empty()),
            open_sent: Ghost(0),
        }
    }

    pub fn state(&self) -> (r: &WsState)
        ensures
            *r == self.spec_state(),
    {
        &self.state
    }

    pub fn is_ready(&self) -> (r: bool)
        ensures
            r == (self.spec_state() is Open),
    {
        self.state.is_ready()
    }

    pub fn is_finished(&self) -> (r: bool)
        ensures
            r == self.spec_finished(),
    {
        self.finished
    }

    pub fn get_settings(&self) -> (r: &Settings)
        ensures
            *r == self.spec_settings(),
    {
        &self.settings
    }

    /// Asks for `on_open` the first time the connection is found open.
    pub fn ready_check(&mut self) -> (r: bool)
        requires
            old(self).wf(),
        ensures
            final(self).wf(),
            ws_advances(*old(self), *final(self)),
            final(self).spec_state() == old(self).spec_state(),
            final(self).sent() == old(self).sent(),
            r == (!old(self).spec_opened() && !old(self).spec_finished() && old(self).spec_state() is Open),
            r ==> final(self).history() == old(self).history().push(Callback::Open),
            !r ==> final(self).history() == old(self).history(),
            final(self).spec_opened() == (old(self).spec_opened() || r),
    {
        if self.opened || self.finished || !self.state.is_ready() {
            return false;
        }
        proof {
            if self.history@.len() > 0 {
                if self.history@[0] == Callback::Close {
                    assert(self.history@.contains(Callback::Close));
                }
                assert(false);
            }
            lemma_push_callback(self.history@, Callback::Open);
            self.history@ = self.history@.push(Callback::Open);
        }
        self.opened = true;
        true
    }
}

impl WsEngine {
    /// Records a message handed to the host for framing.
    fn record_sent(&mut self, Ghost(m): Ghost<MessageView>)
        requires
            old(self).wf(),
            !ws_is_open(old(self).state) ==> m is Close,
        ensures
            final(self).wf(),
            final(self).sent@ == old(self).sent@.push(m),
            final(self).open_sent@ >= old(self).open_sent@,
            !ws_is_open(old(self).state) ==> final(self).open_sent@ == old(self).open_sent@,
            final(self).history@ == old(self).history@,
            final(self).state == old(self).state,
            final(self).settings == old(self).settings,
            final(self).opened == old(self).opened,
            final(self).finished == old(self).finished,
            final(self).last_progress_ms == old(self).last_progress_ms,
            final(self).phase_since_ms == old(self).phase_since_ms,
    {
        proof {
            self.sent@ = self.sent@.push(m);
            if ws_is_open(self.state) {
                self.open_sent@ = self.open_sent@ + 1;
            }
            assert forall|i: int| self.open_sent@ <= i < self.sent@.len() implies self.sent@[i] is Close by {
                if i < old(self).sent@.len() {
                    assert(self.sent@[i] == old(self).sent@[i]);
                }
            }
        }
    }

    /// Whether a command may be taken from the queue: not during the
    /// handshake, not after the end, and only while the host's write buffer
    /// holds fewer than `out_buffer_max` bytes.
    pub fn accepts_command(&self, out_len: usize) -> (r: bool)
        ensures
            r == (!self.spec_finished() && !(self.spec_state() is Wait || self.spec_state() is WaitRet)
                && out_len < self.spec_settings().out_buffer_max),
    {
        if self.finished {
            return false;
        }
        match self.state {
            WsState::Wait | WsState::WaitRet => false,
            _ => out_len < self.settings.out_buffer_max,
        }
    }

    /// Whether reading may go on with `in_len` unread bytes buffered: a read
    /// buffer at its bound is fatal.
    pub fn check_in_buffer(&self, in_len: usize) -> (r: NetResult<()>)
        ensures
            r is Err <==> in_len >= self.spec_settings().in_buffer_max,
            r is Err ==> r == Err::<(), NetError>(NetError::OverInbufferSize),
    {
        if in_len >= self.settings.in_buffer_max {
            Err(NetError::OverInbufferSize)
        } else {
            Ok(())
        }
    }

    /// Records that bytes arrived from the peer: the read clock restarts.
    /// Writes do not count, since they are no sign of life from the peer.
    pub fn read_progress(&mut self, now_ms: u64)
        requires
            old(self).wf(),
        ensures
            final(self).wf(),
            ws_advances(*old(self), *final(self)),
            final(self).history() == old(self).history(),
            final(self).sent() == old(self).sent(),
            final(self).spec_state() == old(self).spec_state(),
            final(self).spec_finished() == old(self).spec_finished(),
            final(self).spec_opened() == old(self).spec_opened(),
            final(self).spec_last_progress() == now_ms,
    {
        self.last_progress_ms = now_ms;
    }

    /// The upgrade request went out (client) or came in (server).
    pub fn handshake_sent(&mut self, now_ms: u64) -> (r: bool)
        requires
            old(self).wf(),
        ensures
            final(self).wf(),
            ws_advances(*old(self), *final(self)),
            final(self).history() == old(self).history(),
            final(self).sent() == old(self).sent(),
            r == (old(self).spec_state() is Wait),
            r ==> final(self).spec_state() is WaitRet && final(self).spec_phase_since() == now_ms,
            !r ==> final(self).spec_state() == old(self).spec_state(),
            final(self).spec_finished() == old(self).spec_finished(),
            final(self).spec_opened() == old(self).spec_opened(),
    {
        let r = self.state.handshake_sent();
        if r {
            self.phase_since_ms = now_ms;
        }
        r
    }

    /// Begins a close. Returns the close frame to write: only from `Open`.
    pub fn close(&mut self, code: CloseCode, reason: String, now_ms: u64) -> (r: Option<Message>)
        requires
            old(self).wf(),
        ensures
            final(self).wf(),
            ws_advances(*old(self), *final(self)),
            final(self).history() == old(self).history(),
            final(self).spec_finished() == old(self).spec_finished(),
            final(self).spec_opened() == old(self).spec_opened(),
            ws_close_effect(*old(self), *final(self), r, code, reason@, now_ms),
            (old(self).spec_state() is Closing || old(self).spec_state() is Closed) ==> r is None
                && final(self).spec_state() == old(self).spec_state() && final(self).sent() == old(self).sent(),
            ws_is_open(old(self).spec_state()) ==> final(self).spec_state() == WsState::Closing(code, reason)
                && final(self).spec_phase_since() == now_ms,
            old(self).spec_state() is Open ==> r == Some(Message::Close(code, reason))
                && final(self).sent() == old(self).sent().push(Message::Close(code, reason)@),
            !(old(self).spec_state() is Open) ==> r is None && final(self).sent() == old(self).sent(),
    {
        let was_open = match self.state {
            WsState::Closing(_, _) | WsState::Closed(_, _) => false,
            _ => true,
        };
        let frame = self.state.close(code, reason.clone());
        if was_open {
            self.phase_since_ms = now_ms;
        }
        if frame {
            let m = Message::Close(code, reason);
            self.record_sent(Ghost(m@));
            Some(m)
        } else {
            None
        }
    }

    /// The server's handler answered the upgrade request with `status`: the
    /// connection opens, and an answer other than `101` closes it again at
    /// once (the close frame is returned). Only valid while the answer is pending.
    pub fn server_answer(&mut self, status: u16, now_ms: u64) -> (r: NetResult<Option<Message>>)
        requires
            old(self).wf(),
        ensures
            final(self).wf(),
            ws_advances(*old(self), *final(self)),
            final(self).history() == old(self).history(),
            r is Ok <==> old(self).spec_state() is WaitRet,
            r is Err ==> final(self).spec_state() == old(self).spec_state(),
            r is Ok && status == 101 ==> r == Ok::<Option<Message>, NetError>(None)
                && final(self).spec_state() is Open,
            r is Ok && status != 101 ==> (final(self).spec_state() matches WsState::Closing(c, t) && c
                == CloseCode::Normal && t@ == "handshake failed!"@) && (r matches Ok(
                Some(Message::Close(c, t)),
            ) && c == CloseCode::Normal && t@ == "handshake failed!"@),
    {
        self.state.handler_response()?;
        if status != 101 {
            proof {
                reveal_strlit("handshake failed!");
            }
            let reason = String::from_str("handshake failed!");
            return Ok(self.close(CloseCode::Normal, reason, now_ms));
        }
        Ok(None)
    }

    /// The server answered the client's upgrade request with `status`: `101`
    /// opens the connection; anything else closes it without a frame.
    pub fn client_answer(&mut self, status: u16, now_ms: u64) -> (r: NetResult<()>)
        requires
            old(self).wf(),
        ensures
            final(self).wf(),
            ws_advances(*old(self), *final(self)),
            final(self).history() == old(self).history(),
            final(self).sent() == old(self).sent(),
            status == 101 ==> (r is Ok <==> old(self).spec_state() is WaitRet),
            status == 101 && r is Ok ==> final(self).spec_state() is Open,
            status != 101 && old(self).spec_state() is WaitRet ==> r is Ok && final(self).spec_state() is Closing,
    {
        if status != 101 {
            match self.state {
                WsState::Open => {
                    return Ok(());
                },
                _ => {},
            }
            let reason = "handshake failed!".to_string();
            let _ = self.close(CloseCode::Normal, reason, now_ms);
            return Ok(());
        }
        self.state.handler_response()
    }
}

impl WsEngine {
    /// Says what the host does with a message read from the peer. Messages
    /// are handed on only while open and after `on_open`; a close from the
    /// peer and the end of the stream (`Shutdown`) end the connection.
    pub fn inbound(&mut self, msg: Message) -> (r: Step)
        requires
            old(self).wf(),
        ensures
            final(self).wf(),
            ws_advances(*old(self), *final(self)),
            final(self).sent() == old(self).sent(),
            final(self).spec_opened() == old(self).spec_opened(),
            old(self).spec_finished() ==> r == Step::Stop,
            (r is Idle || r is Deliver || r is Ping || r is Pong) ==> final(self).spec_state() == old(
                self,
            ).spec_state() && final(self).spec_finished() == old(self).spec_finished(),
            !old(self).spec_finished() && !(old(self).spec_opened() && old(self).spec_state() is Open) ==> r
                == Step::Idle && final(self).history() == old(self).history(),
            !old(self).spec_finished() && old(self).spec_opened() && old(self).spec_state() is Open ==> {
                &&& (msg is Text || msg is Binary) ==> r == Step::Deliver(msg)
                    && final(self).history() == old(self).history().push(Callback::Message)
                &&& msg matches Message::Ping(d) ==> r == Step::Ping(d)
                    && final(self).history() == old(self).history().push(Callback::Ping)
                &&& msg matches Message::Pong(d) ==> r == Step::Pong(d)
                    && final(self).history() == old(self).history().push(Callback::Pong)
                &&& msg matches Message::Close(c, reason) ==> r == Step::Close(c, reason)
                    && final(self).history() == old(self).history().push(Callback::Close)
                    && final(self).spec_finished()
                &&& msg is Shutdown ==> r == Step::Stop && final(self).spec_finished()
                    && final(self).history() == old(self).history()
            },
    {
        if self.finished {
            return Step::Stop;
        }
        if !self.opened || !self.state.is_ready() {
            return Step::Idle;
        }
        proof {
            assert(self.history@[0] == Callback::Open);
            if self.history@.contains(Callback::Close) {
                assert(self.finished);
            }
        }
        match msg {
            Message::Text(_) | Message::Binary(_) => {
                proof {
                    lemma_push_callback(self.history@, Callback::Message);
                    self.history@ = self.history@.push(Callback::Message);
                }
                Step::Deliver(msg)
            },
            Message::Ping(d) => {
                proof {
                    lemma_push_callback(self.history@, Callback::Ping);
                    self.history@ = self.history@.push(Callback::Ping);
                }
                Step::Ping(d)
            },
            Message::Pong(d) => {
                proof {
                    lemma_push_callback(self.history@, Callback::Pong);
                    self.history@ = self.history@.push(Callback::Pong);
                }
                Step::Pong(d)
            },
            Message::Close(c, reason) => {
                proof {
                    lemma_push_callback(self.history@, Callback::Close);
                    self.history@ = self.history@.push(Callback::Close);
                }
                self.finished = true;
                Step::Close(c, reason)
            },
            Message::Shutdown => {
                self.finished = true;
                Step::Stop
            },
        }
    }

    /// Handles the handler's answer to a ping: the pong to frame, while open.
    pub fn ping_reply(&mut self, reply: Option<Vec<u8>>) -> (r: Option<Message>)
        requires
            old(self).wf(),
        ensures
            final(self).wf(),
            ws_advances(*old(self), *final(self)),
            final(self).history() == old(self).history(),
            final(self).spec_state() == old(self).spec_state(),
            final(self).spec_finished() == old(self).spec_finished(),
            final(self).spec_opened() == old(self).spec_opened(),
            match reply {
                Some(d) if old(self).spec_state() is Open && !old(self).spec_finished() => r == Some(
                    Message::Pong(d),
                ) && final(self).sent() == old(self).sent().push(MessageView::Pong(d@)),
                _ => r is None && final(self).sent() == old(self).sent(),
            },
    {
        match reply {
            None => None,
            Some(d) => {
                if self.finished || !self.state.is_ready() {
                    return None;
                }
                let m = Message::Pong(d);
                self.record_sent(Ghost(m@));
                Some(m)
            },
        }
    }

    /// Handles one queued command. Returns the message to frame: a close
    /// frame when `Close` or `Shutdown` (as `Away`/"Shutdown") closes an
    /// open connection, a data message while open, nothing otherwise.
    pub fn command(&mut self, msg: Message, now_ms: u64) -> (r: Option<Message>)
        requires
            old(self).wf(),
        ensures
            final(self).wf(),
            ws_advances(*old(self), *final(self)),
            final(self).history() == old(self).history(),
            final(self).spec_finished() == old(self).spec_finished(),
            final(self).spec_opened() == old(self).spec_opened(),
            !(msg is Close || msg is Shutdown) ==> final(self).spec_state() == old(self).spec_state(),
            !(msg is Close || msg is Shutdown) && old(self).spec_state() is Open && !old(
                self,
            ).spec_finished() ==> r == Some(msg) && final(self).sent() == old(self).sent().push(msg@),
            !(msg is Close || msg is Shutdown) && !(old(self).spec_state() is Open && !old(
                self,
            ).spec_finished()) ==> r is None && final(self).sent() == old(self).sent(),
            msg matches Message::Close(c, reason) ==> ws_close_effect(*old(self), *final(self), r, c, reason@, now_ms),
            msg is Shutdown ==> ws_close_effect(*old(self), *final(self), r, CloseCode::Away, "Shutdown"@, now_ms),
    {
        match msg {
            Message::Close(c, reason) => self.close(c, reason, now_ms),
            Message::Shutdown => {
                proof {
                    reveal_strlit("Shutdown");
                }
                self.close(CloseCode::Away, String::from_str("Shutdown"), now_ms)
            },
            other => {
                if self.finished || !self.state.is_ready() {
                    return None;
                }
                self.record_sent(Ghost(other@));
                Some(other)
            },
        }
    }

    /// The write buffer drained while closing: the connection is closed.
    pub fn closing_done(&mut self)
        requires
            old(self).wf(),
        ensures
            final(self).wf(),
            ws_advances(*old(self), *final(self)),
            final(self).history() == old(self).history(),
            final(self).sent() == old(self).sent(),
            final(self).spec_finished() == old(self).spec_finished(),
            old(self).spec_state() matches WsState::Closing(c, reason) ==> final(self).spec_state()
                == WsState::Closed(c, reason),
            !(old(self).spec_state() is Closing) ==> final(self).spec_state() == old(self).spec_state(),
    {
        self.state.closing_to_closed();
    }

    /// Checks the deadlines at `now_ms`: the handshake must finish within
    /// `shake_timeout` (else `Timeout`), an open peer must not be silent for
    /// `read_timeout` (else `ReadTimeout`), a close is forced after
    /// `closing_time`. Returns `true` when the connection is closed.
    pub fn check_timeout(&mut self, now_ms: u64) -> (r: NetResult<bool>)
        requires
            old(self).wf(),
        ensures
            final(self).wf(),
            ws_advances(*old(self), *final(self)),
            final(self).history() == old(self).history(),
            final(self).sent() == old(self).sent(),
            final(self).spec_finished() == old(self).spec_finished(),
            old(self).spec_finished() ==> r == Ok::<bool, NetError>(true),
            !old(self).spec_finished() && (old(self).spec_state() is Wait || old(self).spec_state() is WaitRet)
                ==> (r is Err <==> (now_ms >= old(self).spec_phase_since() && now_ms - old(
                self,
            ).spec_phase_since() >= old(self).spec_settings().shake_timeout)) && (r is Err ==> r
                == Err::<bool, NetError>(NetError::Timeout)) && (r is Ok ==> r == Ok::<bool, NetError>(false)),
            !old(self).spec_finished() && old(self).spec_state() is Open ==> (r is Err <==> (now_ms
                >= old(self).spec_last_progress() && now_ms - old(self).spec_last_progress() >= old(
                self,
            ).spec_settings().read_timeout)) && (r is Err ==> r == Err::<bool, NetError>(NetError::ReadTimeout))
                && (r is Ok ==> r == Ok::<bool, NetError>(false)),
            !old(self).spec_finished() && old(self).spec_state() is Closing ==> r is Ok && (r == Ok::<
                bool,
                NetError,
            >(true) <==> (now_ms >= old(self).spec_phase_since() && now_ms - old(self).spec_phase_since()
                >= old(self).spec_settings().closing_time)),
            !old(self).spec_finished() && old(self).spec_state() is Closed ==> r == Ok::<bool, NetError>(true),
            r == Ok::<bool, NetError>(true) && !old(self).spec_finished() ==> final(self).spec_state() is Closed,
            r != Ok::<bool, NetError>(true) ==> final(self).spec_state() == old(self).spec_state(),
    {
        if self.finished {
            return Ok(true);
        }
        match self.state {
            WsState::Wait | WsState::WaitRet => {
                if now_ms >= self.phase_since_ms && now_ms - self.phase_since_ms >= self.settings.shake_timeout as u64 {
                    Err(NetError::Timeout)
                } else {
                    Ok(false)
                }
            },
            WsState::Open => {
                if now_ms >= self.last_progress_ms && now_ms - self.last_progress_ms
                    >= self.settings.read_timeout as u64 {
                    Err(NetError::ReadTimeout)
                } else {
                    Ok(false)
                }
            },
            WsState::Closing(_, _) => {
                if now_ms >= self.phase_since_ms && now_ms - self.phase_since_ms >= self.settings.closing_time as u64 {
                    self.state.closing_to_closed();
                    Ok(true)
                } else {
                    Ok(false)
                }
            },
            WsState::Closed(_, _) => Ok(true),
        }
    }

    /// The peer ended the stream: stop without a callback.
    pub fn peer_closed(&mut self)
        requires
            old(self).wf(),
        ensures
            final(self).wf(),
            ws_advances(*old(self), *final(self)),
            final(self).history() == old(self).history(),
            final(self).spec_finished(),
    {
        self.finished = true;
    }

    /// The connection failed: asks for `on_close(Error, "NetError")` unless
    /// it already ended.
    pub fn fail(&mut self) -> (r: bool)
        requires
            old(self).wf(),
        ensures
            final(self).wf(),
            ws_advances(*old(self), *final(self)),
            final(self).spec_finished(),
            r == !old(self).spec_finished(),
            r ==> final(self).history() == old(self).history().push(Callback::Close),
            !r ==> final(self).history() == old(self).history(),
    {
        if self.finished {
            return false;
        }
        proof {
            lemma_push_callback(self.history@, Callback::Close);
            self.history@ = self.history@.push(Callback::Close);
        }
        self.finished = true;
        true
    }
}

/// On a WebSocket connection too, `on_open` comes first and at most once,
/// and `on_close` last and at most once.
pub proof fn lemma_ws_callbacks_ordered(e: WsEngine)
    requires
        e.wf(),
    ensures
        callbacks_ordered(e.history()),
        e.history().contains(Callback::Close) ==> e.spec_finished(),
{
}

/// Once a WebSocket connection is closing, only close frames are framed.
pub proof fn lemma_ws_only_close_after_closing(a: WsEngine, b: WsEngine)
    requires
        a.wf(),
        b.wf(),
        ws_advances(a, b),
        !ws_is_open(a.spec_state()),
    ensures
        forall|i: int| a.sent().len() <= i < b.sent().len() ==> (#[trigger] b.sent()[i]) is Close,
{
    assert forall|i: int| a.sent().len() <= i < b.sent().len() implies (#[trigger] b.sent()[i]) is Close by {
        assert(b.open_sent() <= a.sent().len());
    }
}

} // verus!
