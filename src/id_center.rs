//! Identifiers: listener (server) ids, and the connection ids a listener mints
//! for its children, `server_id << 32 | counter`.
use vstd::prelude::*;

verus! {

/// Largest server id handed out, so that an id shifted into the upper half
/// of a connection id stays below 2^63.
pub const MAX_SERVER_ID: u64 = 0x7FFF_FFFF;

/// Hands out server ids 1, 2, ... up to `MAX_SERVER_ID`, then starts again at 1.
pub struct IdCenter {
    now: u64,
}

impl IdCenter {
    pub closed spec fn next_value(&self) -> u64 {
        self.now
    }

    pub fn new() -> (r: IdCenter)
        ensures
            r.next_value() == 1,
    {
        IdCenter { now: 1 }
    }

    /// The next server id, always in `1..=MAX_SERVER_ID`.
    pub fn next_server_id(&mut self) -> (r: u64)
        ensures
            1 <= r <= MAX_SERVER_ID,
            old(self).next_value() > MAX_SERVER_ID || old(self).next_value() == 0 ==> r == 1,
            1 <= old(self).next_value() <= MAX_SERVER_ID ==> r == old(self).next_value(),
            final(self).next_value() == r + 1,
    {
        if self.now > MAX_SERVER_ID || self.now == 0 {
            self.now = 1;
        }
        let next = self.now;
        self.now = next + 1;
        next
    }
}

/// The connection id of the `counter`-th child of server `server_id`.
pub open spec fn connection_id(server_id: u64, counter: u32) -> int {
    server_id as int * 0x1_0000_0000 + counter as int
}

/// Mints the ids of one listener's children with a wrapping 32-bit counter.
pub struct ConnectionIds {
    server_id: u64,
    next_connection_id: u32,
}

impl ConnectionIds {
    pub closed spec fn spec_server_id(&self) -> u64 {
        self.server_id
    }

    pub closed spec fn spec_counter(&self) -> u32 {
        self.next_connection_id
    }

    pub fn new(server_id: u64) -> (r: ConnectionIds)
        requires
            server_id <= MAX_SERVER_ID,
        ensures
            r.spec_server_id() == server_id,
            r.spec_counter() == 0,
    {
        ConnectionIds { server_id, next_connection_id: 0 }
    }

    pub fn server_id(&self) -> (r: u64)
        ensures
            r == self.spec_server_id(),
    {
        self.server_id
    }

    /// The next child's id, `server_id << 32 | counter`, after the counter
    /// moves one up (wrapping).
    pub fn mint(&mut self) -> (r: u64)
        requires
            old(self).spec_server_id() <= MAX_SERVER_ID,
        ensures
            final(self).spec_server_id() == old(self).spec_server_id(),
            final(self).spec_counter() == (if old(self).spec_counter() == u32::MAX {
                0
            } else {
                (old(self).spec_counter() + 1) as u32
            }),
            r == connection_id(final(self).spec_server_id(), final(self).spec_counter()),
            r == (final(self).spec_server_id() << 32u64) | (final(self).spec_counter() as u64),
    {
        self.next_connection_id = self.next_connection_id.wrapping_add(1);
        let s = self.server_id;
        let c = self.next_connection_id as u64;
        assert(s * 0x1_0000_0000 + c == (s << 32u64) | c) by (bit_vector)
            requires
                s <= 0x7FFF_FFFFu64,
                c <= 0xFFFF_FFFFu64,
        ;
        s * 0x1_0000_0000 + c
    }
}

/// Whether a listener with `online` live children admits one more.
pub fn admits(online: usize, max_connections: usize) -> (r: bool)
    ensures
        r == (online < max_connections),
{
    online < max_connections
}

} // verus!
