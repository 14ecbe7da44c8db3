//! The dispatcher between an event loop and a handler.
//!
//! The caller owns the socket and the loop. On every event it asks the
//! dispatcher what to do, does the reading and sending, and hands the results
//! back; after every callback it asks `tick` which events to wait for next.

use crate::umio::provider::{Action, Provider};
use crate::util::net::SocketAddr;
use vstd::prelude::*;

verus! {

/// Handles events occurring within the event loop.
///
/// All three callbacks do nothing unless a handler says otherwise. They run
/// on the thread of the event loop and must not block.
pub trait Dispatcher: Sized {
    type Timeout;

    type Message;

    /// Process an incoming message from the given address.
    fn incoming(
        &mut self,
        provider: &mut Provider<Self::Timeout, Self::Message>,
        message: &[u8],
        addr: SocketAddr,
    ) {
    }

    /// Process a message sent via the event loop channel.
    fn notify(
        &mut self,
        provider: &mut Provider<Self::Timeout, Self::Message>,
        message: Self::Message,
    ) {
    }

    /// Process a timeout that has been triggered.
    fn timeout(
        &mut self,
        provider: &mut Provider<Self::Timeout, Self::Message>,
        timeout: Self::Timeout,
    ) {
    }
}

//----------------------------------------------------------------------------//

/// The token under which the socket is registered with the event loop.
pub const UDP_SOCKET_TOKEN: usize = 2;

/// The events of a socket: those that happened, or those to wait for.
#[derive(Copy, Clone, Debug, PartialEq, Eq, Structural)]
pub struct EventSet {
    pub readable: bool,
    pub writable: bool,
}

impl EventSet {
    /// Readiness to read only.
    pub fn readable() -> (r: EventSet)
        ensures
            r == (EventSet { readable: true, writable: false }),
    {
        EventSet { readable: true, writable: false }
    }

    /// Readiness to write only.
    pub fn writable() -> (r: EventSet)
        ensures
            r == (EventSet { readable: false, writable: true }),
    {
        EventSet { readable: false, writable: true }
    }

    /// The events of either set.
    pub fn or(self, other: EventSet) -> (r: EventSet)
        ensures
            r == (EventSet {
                readable: self.readable || other.readable,
                writable: self.writable || other.writable,
            }),
    {
        EventSet {
            readable: self.readable || other.readable,
            writable: self.writable || other.writable,
        }
    }

    pub fn is_readable(&self) -> (r: bool)
        ensures
            r == self.readable,
    {
        self.readable
    }

    pub fn is_writable(&self) -> (r: bool)
        ensures
            r == self.writable,
    {
        self.writable
    }
}

/// The events to wait for with `waiting` datagrams in the outbound queue:
/// readiness to read always, readiness to write only while something waits
/// to be sent.
pub open spec fn interest(waiting: nat) -> EventSet {
    EventSet { readable: true, writable: waiting > 0 }
}

/// What the caller has to do on a readiness event: first send the datagram
/// at the head of the queue, then receive one.
#[derive(Copy, Clone, Debug, PartialEq, Eq, Structural)]
pub struct ReadyPlan {
    pub write: bool,
    pub read: bool,
}

/// The plan for the events `events` under the token `token`: events of
/// another token than the socket's are not the dispatcher's.
pub open spec fn plan_for(token: usize, events: EventSet) -> ReadyPlan {
    if token != UDP_SOCKET_TOKEN {
        ReadyPlan { write: false, read: false }
    } else {
        ReadyPlan { write: events.writable, read: events.readable }
    }
}

/// The outbound queue after the datagram at its head was dealt with.
pub open spec fn after_write(queue: Seq<(Seq<u8>, SocketAddr)>) -> Seq<(Seq<u8>, SocketAddr)> {
    if queue.len() > 0 {
        queue.subrange(1, queue.len() as int)
    } else {
        queue
    }
}

pub struct DispatchHandler<D: Dispatcher> {
    pub dispatch: D,
    pub provider: Provider<D::Timeout, D::Message>,
    pub current_set: EventSet,
}

impl<D: Dispatcher> DispatchHandler<D> {
    /// A dispatcher for the handler `dispatch`, with an empty pool of
    /// buffers of `buffer_size` bytes and an empty queue that takes up to
    /// `max_queue` datagrams. The socket is to be registered as readable.
    pub fn new(buffer_size: usize, max_queue: usize, dispatch: D) -> (r: DispatchHandler<D>)
        ensures
            r.dispatch == dispatch,
            r.current_set == (EventSet { readable: true, writable: false }),
            r.provider.accounted(),
            r.provider.pool_len() == 0,
            r.provider.queue() == Seq::<(Seq<u8>, SocketAddr)>::empty(),
            r.provider.actions() == Seq::<Action<D::Timeout, D::Message>>::empty(),
            r.provider.created() == 0,
            r.provider.outstanding() == 0,
            r.provider.buffer_size() == buffer_size,
            r.provider.max_queue() == max_queue,
    {
        DispatchHandler {
            dispatch,
            provider: Provider::new(buffer_size, max_queue),
            current_set: EventSet::readable(),
        }
    }

    /// The datagram that a write-ready event is to send: the head of the
    /// queue. It stays there until `handle_write` takes it off.
    pub fn next_datagram(&self) -> (r: Option<(&[u8], SocketAddr)>)
        ensures
            r is Some <==> self.provider.queue().len() > 0,
            r matches Some((bytes, addr)) ==> (bytes@, addr) == self.provider.queue()[0],
    {
        self.provider.next_datagram()
    }

    /// Takes the head of the queue off after the socket took it, or refused
    /// it for good, and returns its buffer to the pool. With an empty queue
    /// nothing happens. A send that would block is no reason to call this:
    /// the datagram then stays at the head.
    pub fn handle_write(&mut self)
        ensures
            final(self).dispatch == old(self).dispatch,
            final(self).current_set == old(self).current_set,
            final(self).provider.accounted(),
            final(self).provider.created() == old(self).provider.created(),
            final(self).provider.outstanding() == old(self).provider.outstanding(),
            final(self).provider.actions() == old(self).provider.actions(),
            final(self).provider.queue() == after_write(old(self).provider.queue()),
            final(self).provider.pool_len() == (if old(self).provider.queue().len() > 0 {
                old(self).provider.pool_len() + 1
            } else {
                old(self).provider.pool_len()
            }),
    {
        self.provider.pop_datagram();
    }

    /// Serves a datagram that the socket received from `addr`: it is copied
    /// into a buffer from the pool, as far as the buffer holds it, shown to
    /// the handler, and the buffer is returned to the pool. Without a
    /// datagram nothing happens.
    pub fn handle_read(&mut self, received: Option<(&[u8], SocketAddr)>)
        ensures
            final(self).current_set == old(self).current_set,
            final(self).provider.accounted(),
            received is None ==> final(self).dispatch == old(self).dispatch,
            received is None ==> final(self).provider.queue() == old(self).provider.queue(),
            received is None ==> final(self).provider.pool_len() == old(self).provider.pool_len(),
            received is None ==> final(self).provider.created() == old(self).provider.created(),
            received is None ==> final(self).provider.outstanding() == old(
                self,
            ).provider.outstanding(),
            received is None ==> final(self).provider.actions() == old(self).provider.actions(),
    {
        match received {
            Some((datagram, addr)) => {
                let mut buffer = self.provider.take_buffer();
                buffer.write(datagram);
                self.dispatch.incoming(&mut self.provider, buffer.as_ref(), addr);
                self.provider.return_buffer(buffer);
                proof {
                    use_type_invariant(&self.provider);
                }
            },
            None => {
                proof {
                    use_type_invariant(&self.provider);
                }
            },
        }
    }

    /// Decides what a readiness event asks of the caller.
    pub fn ready(&self, token: usize, events: EventSet) -> (r: ReadyPlan)
        ensures
            r == plan_for(token, events),
    {
        if token != UDP_SOCKET_TOKEN {
            return ReadyPlan { write: false, read: false };
        }
        ReadyPlan { write: events.is_writable(), read: events.is_readable() }
    }

    /// Hands a message from the notification channel to the handler.
    pub fn notify(&mut self, msg: D::Message)
        ensures
            final(self).current_set == old(self).current_set,
            final(self).provider.accounted(),
    {
        self.dispatch.notify(&mut self.provider, msg);
        proof {
            use_type_invariant(&self.provider);
        }
    }

    /// Hands a timeout that fired to the handler.
    pub fn timeout(&mut self, timeout: D::Timeout)
        ensures
            final(self).current_set == old(self).current_set,
            final(self).provider.accounted(),
    {
        self.dispatch.timeout(&mut self.provider, timeout);
        proof {
            use_type_invariant(&self.provider);
        }
    }

    /// Decides, after a callback, which events of the socket to wait for:
    /// see [`interest`]. This avoids wakeups for writing with nothing to
    /// write.
    pub fn tick(&mut self) -> (r: EventSet)
        ensures
            r == interest(old(self).provider.queue().len()),
            final(self).current_set == r,
            final(self).dispatch == old(self).dispatch,
            final(self).provider == old(self).provider,
    {
        self.current_set = if self.provider.queue_len() == 0 {
            EventSet::readable()
        } else {
            EventSet::readable().or(EventSet::writable())
        };
        self.current_set
    }

    /// Hands the actions that the handler asked for to the event loop.
    pub fn take_actions(&mut self) -> (r: Vec<Action<D::Timeout, D::Message>>)
        ensures
            r@ == old(self).provider.actions(),
            final(self).provider.accounted(),
            final(self).provider.actions() == Seq::<Action<D::Timeout, D::Message>>::empty(),
            final(self).provider.queue() == old(self).provider.queue(),
            final(self).provider.pool_len() == old(self).provider.pool_len(),
            final(self).provider.created() == old(self).provider.created(),
            final(self).provider.outstanding() == old(self).provider.outstanding(),
            final(self).dispatch == old(self).dispatch,
            final(self).current_set == old(self).current_set,
    {
        self.provider.take_actions()
    }
}

} // verus!
