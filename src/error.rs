use vstd::prelude::*;
use crate::message::Message;

verus! {

/// Errors raised while opening the WebSocket upgrade.
#[derive(Debug, Clone, PartialEq, Eq)]
pub enum WsError {
    UnknowHost,
    BadStatus,
    FailStatus(u16),
    ProtocolError(String),
}

/// An outbound command queued for a connection's engine.
#[derive(Debug, Clone, PartialEq, Eq)]
pub struct Command {
    pub msg: Message,
}

/// Every failure the library reports. Errors of the underlying stacks
/// (sockets, HTTP parsing, KCP) are carried as their message text.
#[derive(Debug, Clone, PartialEq, Eq)]
pub enum NetError {
    TooShort,
    TooShortLength,
    OnlyTcp,
    BadCode,
    BadText,
    Timeout,
    ReadTimeout,
    OverMsgSize,
    OverInbufferSize,
    OverOutbufferSize,
    SendClosed(Command),
    SendFull(Command),
    Extension(String),
    Ws(WsError),
    Io(String),
    Web(String),
    Kcp(String),
}

pub type NetResult<T> = Result<T, NetError>;

} // verus!
