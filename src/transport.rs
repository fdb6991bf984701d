use vstd::prelude::*;

verus! {

/// The transports a connection can be asked for by type.
#[derive(Debug, Clone, Copy, PartialEq, Eq, Structural)]
pub enum NetType {
    Tcp,
    Quic,
    Websocket,
    UnixSocket,
}

impl NetType {
    /// Whether a connection of this type can be made from an address alone;
    /// only TCP can.
    pub fn is_supported(&self) -> (r: bool)
        ensures
            r == (*self == NetType::Tcp),
    {
        match self {
            NetType::Tcp => true,
            _ => false,
        }
    }
}

} // verus!
