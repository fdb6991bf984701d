//! The outbound side of a connection: a bounded queue of commands that the
//! application fills without blocking and the engine drains.
use vstd::prelude::*;
use tokio::sync::mpsc::{Receiver, Sender};
use crate::error::{Command, NetError, NetResult};
use crate::message::{CloseCode, Message};

verus! {

#[verifier::external_type_specification]
#[verifier::external_body]
#[verifier::reject_recursive_types(T)]
pub struct ExSender<T>(Sender<T>);

#[verifier::external_type_specification]
#[verifier::external_body]
#[verifier::reject_recursive_types(T)]
pub struct ExReceiver<T>(Receiver<T>);

/// The engine's end of the command queue.
pub type NetReceiver = Receiver<Command>;

/// Largest queue capacity the channel takes.
pub const MAX_QUEUE_CAPACITY: usize = usize::MAX >> 3;

/// The bound a queue was made with: how many commands it holds at most.
pub uninterp spec fn queue_bound(s: Sender<Command>) -> usize;

/// What a non-blocking send did.
pub(crate) enum TrySend {
    Sent,
    Full(Command),
    Closed(Command),
}

/// Relies on tokio's `mpsc::channel`, which panics on a capacity of 0 or
/// above `Semaphore::MAX_PERMITS` (`usize::MAX >> 3`), and otherwise makes a
/// queue whose bound is the capacity asked for.
#[verifier::external_body]
fn make_channel(capacity: usize) -> (r: (Sender<Command>, Receiver<Command>))
    requires
        0 < capacity <= MAX_QUEUE_CAPACITY,
    ensures
        queue_bound(r.0) == capacity,
{
    tokio::sync::mpsc::channel(capacity)
}

/// Relies on tokio's `Sender::try_send`: never waits; when the queue is full
/// or the receiver is gone, the message comes back unchanged.
#[verifier::external_body]
fn try_send(ch: &Sender<Command>, c: Command) -> (r: TrySend)
    ensures
        r matches TrySend::Full(x) ==> x == c,
        r matches TrySend::Closed(x) ==> x == c,
{
    match ch.try_send(c) {
        Ok(()) => TrySend::Sent,
        Err(tokio::sync::mpsc::error::TrySendError::Full(x)) => TrySend::Full(x),
        Err(tokio::sync::mpsc::error::TrySendError::Closed(x)) => TrySend::Closed(x),
    }
}

/// Relies on tokio's `Sender::is_closed`: whether the receiver is gone.
#[verifier::external_body]
fn sender_is_closed(ch: &Sender<Command>) -> bool {
    ch.is_closed()
}

/// Relies on tokio's `Sender` clone: another handle on the same queue, so
/// with the same bound.
#[verifier::external_body]
fn clone_sender(ch: &Sender<Command>) -> (r: Sender<Command>)
    ensures
        queue_bound(r) == queue_bound(*ch),
{
    ch.clone()
}

/// Relies on tokio's `Sender::max_capacity`: the bound the queue was made with.
#[verifier::external_body]
fn sender_max_capacity(ch: &Sender<Command>) -> (r: usize)
    ensures
        r == queue_bound(*ch),
{
    ch.max_capacity()
}

/// The application's handle for sending to one connection.
pub struct NetSender {
    channel: Sender<Command>,
    id: u64,
    handed: Ghost<Seq<Command>>,
}

/// What `send_message(msg)` may return: success, or the command holding `msg`
/// back as `SendFull` or `SendClosed`.
pub open spec fn send_outcome(r: NetResult<()>, msg: Message) -> bool {
    match r {
        Ok(()) => true,
        Err(NetError::SendFull(c)) => c == (Command { msg }),
        Err(NetError::SendClosed(c)) => c == (Command { msg }),
        Err(_) => false,
    }
}

impl NetSender {
    pub closed spec fn spec_id(&self) -> u64 {
        self.id
    }

    /// The commands this handle got into the queue, in order.
    pub closed spec fn spec_handed(&self) -> Seq<Command> {
        self.handed@
    }

    /// How many commands the queue holds at most.
    pub closed spec fn spec_capacity(&self) -> usize {
        queue_bound(self.channel)
    }

    /// A queue of `capacity` commands (at most `usize::MAX >> 3`) for the
    /// connection `id`.
    pub fn new(capacity: usize, id: u64) -> (r: (NetSender, NetReceiver))
        requires
            capacity > 0,
        ensures
            r.0.spec_id() == id,
            r.0.spec_handed() == Seq::<Command>::empty(),
            r.0.spec_capacity() == if capacity > MAX_QUEUE_CAPACITY {
                MAX_QUEUE_CAPACITY
            } else {
                capacity
            },
    {
        let m: usize = usize::MAX;
        assert(m >> 3usize > 0usize) by (bit_vector)
            requires
                m >= 0xFFFF_FFFFusize,
        ;
        let cap = if capacity > m >> 3usize {
            m >> 3usize
        } else {
            capacity
        };
        let (channel, rv) = make_channel(cap);
        (NetSender { channel, id, handed: Ghost(Seq::empty()) }, rv)
    }

    /// Queues `msg` without waiting.
    pub fn send_message(&mut self, msg: Message) -> (r: NetResult<()>)
        ensures
            send_outcome(r, msg),
            r is Ok ==> final(self).spec_handed() == old(self).spec_handed().push(Command { msg }),
            r is Err ==> final(self).spec_handed() == old(self).spec_handed(),
            final(self).spec_id() == old(self).spec_id(),
            final(self).spec_capacity() == old(self).spec_capacity(),
    {
        let c = Command { msg };
        let ghost handed = c;
        match try_send(&self.channel, c) {
            TrySend::Sent => {
                proof {
                    self.handed@ = self.handed@.push(handed);
                }
                Ok(())
            },
            TrySend::Full(c) => Err(NetError::SendFull(c)),
            TrySend::Closed(c) => Err(NetError::SendClosed(c)),
        }
    }

    pub fn get_connection_id(&self) -> (r: u64)
        ensures
            r == self.spec_id(),
    {
        self.id
    }

    /// Queues a close with this code and reason.
    pub fn close_with_reason(&mut self, code: CloseCode, reason: String) -> (r: NetResult<()>)
        ensures
            send_outcome(r, Message::Close(code, reason)),
            r is Ok ==> final(self).spec_handed() == old(self).spec_handed().push(
                Command { msg: Message::Close(code, reason) },
            ),
            r is Err ==> final(self).spec_handed() == old(self).spec_handed(),
            final(self).spec_id() == old(self).spec_id(),
            final(self).spec_capacity() == old(self).spec_capacity(),
    {
        self.send_message(Message::Close(code, reason))
    }

    /// How many commands the queue holds at most.
    pub fn max_capacity(&self) -> (r: usize)
        ensures
            r == self.spec_capacity(),
    {
        sender_max_capacity(&self.channel)
    }

    /// Whether the engine's end of the queue is gone.
    pub fn is_closed(&self) -> bool {
        sender_is_closed(&self.channel)
    }

    /// Another handle on the same queue.
    pub fn clone_handle(&self) -> (r: NetSender)
        ensures
            r.spec_id() == self.spec_id(),
            r.spec_capacity() == self.spec_capacity(),
            r.spec_handed() == Seq::<Command>::empty(),
    {
        NetSender { channel: clone_sender(&self.channel), id: self.id, handed: Ghost(Seq::empty()) }
    }

    /// The underlying queue, for waiting until the engine's end is gone.
    pub fn channel(&self) -> &Sender<Command> {
        &self.channel
    }
}

} // verus!
