//! The WebSocket connection state machine: `Wait` (handshake pending),
//! `WaitRet` (handshake answer pending), `Open`, `Closing`, `Closed`.
use vstd::prelude::*;
use crate::error::{NetError, NetResult, WsError};
use crate::message::CloseCode;

verus! {

#[derive(Debug, Clone, PartialEq, Eq)]
pub enum WsState {
    /// Waiting for the upgrade request (server) or to send it (client).
    Wait,
    /// Waiting for the handler's answer (server) or the server's (client).
    WaitRet,
    Open,
    /// A close was begun with this code and reason; only writes drain.
    Closing(CloseCode, String),
    Closed(CloseCode, String),
}

impl WsState {
    /// Whether messages flow: only once the handshake is done and before any close.
    pub fn is_ready(&self) -> (r: bool)
        ensures
            r == (*self is Open),
    {
        match self {
            WsState::Open => true,
            _ => false,
        }
    }

    /// The request went out (client) or came in (server): wait for the answer.
    pub fn handshake_sent(&mut self) -> (r: bool)
        ensures
            r == (*old(self) is Wait),
            r ==> *final(self) is WaitRet,
            !r ==> *final(self) == *old(self),
    {
        match self {
            WsState::Wait => {
                *self = WsState::WaitRet;
                true
            },
            _ => false,
        }
    }

    /// The handshake answer arrived and was accepted: the connection opens.
    /// Any other state is a protocol error.
    pub fn handler_response(&mut self) -> (r: NetResult<()>)
        ensures
            r is Ok <==> *old(self) is WaitRet,
            r is Ok ==> *final(self) is Open,
            r is Err ==> *final(self) == *old(self) && (r matches Err(NetError::Ws(WsError::BadStatus))),
    {
        match self {
            WsState::WaitRet => {
                *self = WsState::Open;
                Ok(())
            },
            _ => Err(NetError::Ws(WsError::BadStatus)),
        }
    }

    /// Begins a close. Returns whether a close frame is to be written: only
    /// from `Open`. A connection already closing or closed stays as it is;
    /// one still in its handshake closes without a frame.
    pub fn close(&mut self, code: CloseCode, reason: String) -> (r: bool)
        ensures
            r == (*old(self) is Open),
            (*old(self) is Closing || *old(self) is Closed) ==> *final(self) == *old(self),
            !(*old(self) is Closing || *old(self) is Closed) ==> *final(self) == WsState::Closing(code, reason),
    {
        match self {
            WsState::Closing(_, _) => false,
            WsState::Closed(_, _) => false,
            WsState::Open => {
                *self = WsState::Closing(code, reason);
                true
            },
            _ => {
                *self = WsState::Closing(code, reason);
                false
            },
        }
    }

    /// The write buffer drained or the closing time ran out.
    pub fn closing_to_closed(&mut self)
        ensures
            *old(self) matches WsState::Closing(c, reason) ==> *final(self) == WsState::Closed(c, reason),
            !(*old(self) is Closing) ==> *final(self) == *old(self),
    {
        let next = match &*self {
            WsState::Closing(c, reason) => Some(WsState::Closed(*c, reason.clone())),
            _ => None,
        };
        match next {
            Some(n) => {
                *self = n;
            },
            None => {},
        }
    }
}

} // verus!
