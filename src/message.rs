use vstd::prelude::*;

verus! {

/// Status code carried by a close message.
#[derive(Debug, Clone, Copy, PartialEq, Eq, Structural)]
pub enum CloseCode {
    Normal,
    Away,
    Protocol,
    Unsupported,
    Status,
    Abnormal,
    Invalid,
    Policy,
    Size,
    Extension,
    Error,
    Restart,
    Again,
    Tls,
    Empty,
    Other(u16),
}

/// The 16-bit wire value of a close code.
pub open spec fn close_code_value(c: CloseCode) -> u16 {
    match c {
        CloseCode::Normal => 1000,
        CloseCode::Away => 1001,
        CloseCode::Protocol => 1002,
        CloseCode::Unsupported => 1003,
        CloseCode::Status => 1005,
        CloseCode::Abnormal => 1006,
        CloseCode::Invalid => 1007,
        CloseCode::Policy => 1008,
        CloseCode::Size => 1009,
        CloseCode::Extension => 1010,
        CloseCode::Error => 1011,
        CloseCode::Restart => 1012,
        CloseCode::Again => 1013,
        CloseCode::Tls => 1015,
        CloseCode::Empty => 0,
        CloseCode::Other(v) => v,
    }
}

/// The close code that a 16-bit wire value reads as.
pub open spec fn close_code_of(v: u16) -> CloseCode {
    if v == 1000 {
        CloseCode::Normal
    } else if v == 1001 {
        CloseCode::Away
    } else if v == 1002 {
        CloseCode::Protocol
    } else if v == 1003 {
        CloseCode::Unsupported
    } else if v == 1005 {
        CloseCode::Status
    } else if v == 1006 {
        CloseCode::Abnormal
    } else if v == 1007 {
        CloseCode::Invalid
    } else if v == 1008 {
        CloseCode::Policy
    } else if v == 1009 {
        CloseCode::Size
    } else if v == 1010 {
        CloseCode::Extension
    } else if v == 1011 {
        CloseCode::Error
    } else if v == 1012 {
        CloseCode::Restart
    } else if v == 1013 {
        CloseCode::Again
    } else if v == 1015 {
        CloseCode::Tls
    } else if v == 0 {
        CloseCode::Empty
    } else {
        CloseCode::Other(v)
    }
}

impl CloseCode {
    pub fn to_u16(self) -> (r: u16)
        ensures
            r == close_code_value(self),
    {
        match self {
            CloseCode::Normal => 1000,
            CloseCode::Away => 1001,
            CloseCode::Protocol => 1002,
            CloseCode::Unsupported => 1003,
            CloseCode::Status => 1005,
            CloseCode::Abnormal => 1006,
            CloseCode::Invalid => 1007,
            CloseCode::Policy => 1008,
            CloseCode::Size => 1009,
            CloseCode::Extension => 1010,
            CloseCode::Error => 1011,
            CloseCode::Restart => 1012,
            CloseCode::Again => 1013,
            CloseCode::Tls => 1015,
            CloseCode::Empty => 0,
            CloseCode::Other(v) => v,
        }
    }

    pub fn from_u16(v: u16) -> (r: CloseCode)
        ensures
            r == close_code_of(v),
    {
        match v {
            1000 => CloseCode::Normal,
            1001 => CloseCode::Away,
            1002 => CloseCode::Protocol,
            1003 => CloseCode::Unsupported,
            1005 => CloseCode::Status,
            1006 => CloseCode::Abnormal,
            1007 => CloseCode::Invalid,
            1008 => CloseCode::Policy,
            1009 => CloseCode::Size,
            1010 => CloseCode::Extension,
            1011 => CloseCode::Error,
            1012 => CloseCode::Restart,
            1013 => CloseCode::Again,
            1015 => CloseCode::Tls,
            0 => CloseCode::Empty,
            _ => CloseCode::Other(v),
        }
    }
}

/// One-byte tag of a length-prefixed frame.
#[derive(Debug, Clone, Copy, PartialEq, Eq, Structural)]
pub enum OpCode {
    Text,
    Binary,
    Close,
    Ping,
    Pong,
    Shutdown,
    Bad,
}

/// The tag byte written for an opcode; `Shutdown` and `Bad` are never written.
pub open spec fn opcode_byte(op: OpCode) -> u8 {
    match op {
        OpCode::Text => 1,
        OpCode::Binary => 2,
        OpCode::Close => 8,
        OpCode::Ping => 9,
        OpCode::Pong => 10,
        OpCode::Shutdown => 11,
        OpCode::Bad => 255,
    }
}

/// The opcode that a tag byte reads as.
pub open spec fn opcode_of(b: u8) -> OpCode {
    if b == 1 {
        OpCode::Text
    } else if b == 2 {
        OpCode::Binary
    } else if b == 8 {
        OpCode::Close
    } else if b == 9 {
        OpCode::Ping
    } else if b == 10 {
        OpCode::Pong
    } else {
        OpCode::Bad
    }
}

impl OpCode {
    /// Whether the opcode is a control frame (anything but text or binary).
    pub fn is_control(&self) -> (r: bool)
        ensures
            r == !(*self == OpCode::Text || *self == OpCode::Binary),
    {
        match *self {
            OpCode::Text | OpCode::Binary => false,
            _ => true,
        }
    }

    pub fn from_u8(b: u8) -> (r: OpCode)
        ensures
            r == opcode_of(b),
    {
        match b {
            1 => OpCode::Text,
            2 => OpCode::Binary,
            8 => OpCode::Close,
            9 => OpCode::Ping,
            10 => OpCode::Pong,
            _ => OpCode::Bad,
        }
    }

    pub fn to_u8(self) -> (r: u8)
        ensures
            r == opcode_byte(self),
    {
        match self {
            OpCode::Text => 1,
            OpCode::Binary => 2,
            OpCode::Close => 8,
            OpCode::Ping => 9,
            OpCode::Pong => 10,
            OpCode::Shutdown => 11,
            OpCode::Bad => 255,
        }
    }

    /// Upper-case name of the opcode.
    pub fn name(&self) -> (r: &'static str)
        ensures
            *self == OpCode::Text ==> r@ == "TEXT"@,
            *self == OpCode::Binary ==> r@ == "BINARY"@,
            *self == OpCode::Close ==> r@ == "CLOSE"@,
            *self == OpCode::Ping ==> r@ == "PING"@,
            *self == OpCode::Pong ==> r@ == "PONG"@,
            *self == OpCode::Shutdown ==> r@ == "SHUTDOWN"@,
            *self == OpCode::Bad ==> r@ == "BAD"@,
    {
        match *self {
            OpCode::Text => "TEXT",
            OpCode::Binary => "BINARY",
            OpCode::Close => "CLOSE",
            OpCode::Ping => "PING",
            OpCode::Pong => "PONG",
            OpCode::Shutdown => "SHUTDOWN",
            OpCode::Bad => "BAD",
        }
    }
}

/// A logical message exchanged with the handler.
#[derive(Debug, Clone, PartialEq, Eq)]
pub enum Message {
    Text(String),
    Binary(Vec<u8>),
    Close(CloseCode, String),
    Ping(Vec<u8>),
    Pong(Vec<u8>),
    /// In-process signal that the connection is going away; never on the wire.
    Shutdown,
}

/// A message as a mathematical value: text as characters, bytes as sequences,
/// the close code as its wire value.
pub ghost enum MessageView {
    Text(Seq<char>),
    Binary(Seq<u8>),
    Close(u16, Seq<char>),
    Ping(Seq<u8>),
    Pong(Seq<u8>),
    Shutdown,
}

impl View for Message {
    type V = MessageView;

    open spec fn view(&self) -> MessageView {
        match self {
            Message::Text(s) => MessageView::Text(s@),
            Message::Binary(b) => MessageView::Binary(b@),
            Message::Close(c, r) => MessageView::Close(close_code_value(*c), r@),
            Message::Ping(b) => MessageView::Ping(b@),
            Message::Pong(b) => MessageView::Pong(b@),
            Message::Shutdown => MessageView::Shutdown,
        }
    }
}

/// The opcode of a message.
pub open spec fn message_opcode(m: Message) -> OpCode {
    match m {
        Message::Text(_) => OpCode::Text,
        Message::Binary(_) => OpCode::Binary,
        Message::Close(_, _) => OpCode::Close,
        Message::Ping(_) => OpCode::Ping,
        Message::Pong(_) => OpCode::Pong,
        Message::Shutdown => OpCode::Shutdown,
    }
}

impl Message {
    pub fn op_code(&self) -> (r: OpCode)
        ensures
            r == message_opcode(*self),
    {
        match self {
            Message::Text(_) => OpCode::Text,
            Message::Binary(_) => OpCode::Binary,
            Message::Close(_, _) => OpCode::Close,
            Message::Ping(_) => OpCode::Ping,
            Message::Pong(_) => OpCode::Pong,
            Message::Shutdown => OpCode::Shutdown,
        }
    }

    /// The tag byte of the message's opcode.
    pub fn get_type(&self) -> (r: u8)
        ensures
            r == opcode_byte(message_opcode(*self)),
    {
        let op = self.op_code();
        op.to_u8()
    }
}

} // verus!
