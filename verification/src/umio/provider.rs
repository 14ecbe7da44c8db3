//! What a handler may do while it serves an event: take a buffer, queue a
//! datagram, set and clear timeouts, and send itself a message.
//!
//! Timeouts and messages are the event loop's business. The provider records
//! them as actions, which the caller that runs the loop takes and performs.

use crate::umio::buffer::{Buffer, BufferPool};
use crate::util::net::SocketAddr;
use std::collections::VecDeque;
use vstd::prelude::*;

verus! {

/// Something that a handler asked of the event loop.
#[derive(Debug)]
pub enum Action<T, M> {
    /// Fire `timeout` after `delay_ms` milliseconds, unless `token` is
    /// cleared before.
    SetTimeout { token: u64, timeout: T, delay_ms: u64 },
    /// Do not fire the timeout that was set under `token`.
    ClearTimeout { token: u64 },
    /// Deliver `message` to the handler through the notification channel.
    Notify { message: M },
    /// Stop the event loop.
    Shutdown,
}

/// The outbound queue is at its cap. The datagram was dropped, its buffer is
/// back in the pool.
#[derive(Copy, Clone, Debug, PartialEq, Eq, Structural)]
pub struct QueueFull;

/// The datagrams of a queue: the written bytes of each buffer and where they
/// go, in order.
pub open spec fn datagrams(queue: Seq<(Buffer, SocketAddr)>) -> Seq<(Seq<u8>, SocketAddr)> {
    Seq::new(queue.len(), |i: int| (queue[i].0@, queue[i].1))
}

/// Provides services to dispatcher clients.
pub struct Provider<T, M> {
    buffer_pool: BufferPool,
    out_queue: VecDeque<(Buffer, SocketAddr)>,
    max_queue: usize,
    actions: Vec<Action<T, M>>,
    next_token: u64,
    created: Ghost<nat>,
    outstanding: Ghost<nat>,
}

impl<T, M> Provider<T, M> {
    /// Every buffer is in exactly one place: in the pool, in the queue, or
    /// lent out; and the queue is within its cap. This holds of every
    /// provider at all times.
    #[verifier::type_invariant]
    pub closed spec fn accounted(&self) -> bool {
        &&& self.created@ == self.buffer_pool.spec_len() + self.out_queue@.len() + self.outstanding@
        &&& self.out_queue@.len() <= self.max_queue
    }

    /// The number of buffers that wait in the pool.
    pub closed spec fn pool_len(&self) -> nat {
        self.buffer_pool.spec_len()
    }

    /// The capacity of the buffers of the pool.
    pub closed spec fn buffer_size(&self) -> usize {
        self.buffer_pool.buffer_size()
    }

    /// The datagrams that wait to be sent, the next one first.
    pub closed spec fn queue(&self) -> Seq<(Seq<u8>, SocketAddr)> {
        datagrams(self.out_queue@)
    }

    /// The greatest number of datagrams that may wait.
    pub closed spec fn max_queue(&self) -> usize {
        self.max_queue
    }

    /// The actions that wait to be taken by the event loop, the first asked
    /// first.
    pub closed spec fn actions(&self) -> Seq<Action<T, M>> {
        self.actions@
    }

    /// The token that the next timeout will get.
    pub closed spec fn next_token(&self) -> u64 {
        self.next_token
    }

    /// The number of buffers that this provider has made or adopted.
    pub closed spec fn created(&self) -> nat {
        self.created@
    }

    /// The number of buffers that are lent out: taken, and neither returned
    /// nor queued since.
    pub closed spec fn outstanding(&self) -> nat {
        self.outstanding@
    }

    /// What it means that the buffers are accounted for: those made or
    /// adopted are those in the pool, those in the queue and those lent out,
    /// and the queue is within its cap.
    pub proof fn lemma_accounted(&self)
        requires
            self.accounted(),
        ensures
            self.created() == self.pool_len() + self.queue().len() + self.outstanding(),
            self.queue().len() <= self.max_queue(),
    {
    }

    /// A provider with an empty pool of buffers of `buffer_size` bytes and an
    /// empty queue that takes up to `max_queue` datagrams.
    pub fn new(buffer_size: usize, max_queue: usize) -> (r: Provider<T, M>)
        ensures
            r.accounted(),
            r.pool_len() == 0,
            r.queue() == Seq::<(Seq<u8>, SocketAddr)>::empty(),
            r.actions() == Seq::<Action<T, M>>::empty(),
            r.created() == 0,
            r.outstanding() == 0,
            r.buffer_size() == buffer_size,
            r.max_queue() == max_queue,
            r.next_token() == 0,
    {
        let r = Provider {
            buffer_pool: BufferPool::new(buffer_size),
            out_queue: VecDeque::new(),
            max_queue,
            actions: Vec::new(),
            next_token: 0,
            created: Ghost(0),
            outstanding: Ghost(0),
        };
        assert(r.queue() =~= Seq::<(Seq<u8>, SocketAddr)>::empty());
        r
    }

    /// Takes a fresh buffer from the pool. Where the pool is empty it grows
    /// by the buffer that is handed out.
    pub fn take_buffer(&mut self) -> (r: Buffer)
        ensures
            r.is_fresh(),
            r.spec_capacity() == old(self).buffer_size(),
            final(self).accounted(),
            final(self).outstanding() == old(self).outstanding() + 1,
            final(self).pool_len() == (if old(self).pool_len() == 0 {
                0
            } else {
                (old(self).pool_len() - 1) as nat
            }),
            final(self).created() == (if old(self).pool_len() == 0 {
                old(self).created() + 1
            } else {
                old(self).created()
            }),
            final(self).queue() == old(self).queue(),
            final(self).actions() == old(self).actions(),
            final(self).buffer_size() == old(self).buffer_size(),
            final(self).max_queue() == old(self).max_queue(),
            final(self).next_token() == old(self).next_token(),
    {
        proof {
            use_type_invariant(&*self);
        }
        let mut taken = Provider::new(0, 0);
        core::mem::swap(self, &mut taken);
        let Provider {
            mut buffer_pool,
            out_queue,
            max_queue,
            actions,
            next_token,
            created,
            outstanding,
        } = taken;
        let grown = buffer_pool.len() == 0;
        let buffer = buffer_pool.pop();
        *self = Provider {
            buffer_pool,
            out_queue,
            max_queue,
            actions,
            next_token,
            created: Ghost(
                if grown {
                    created@ + 1
                } else {
                    created@
                },
            ),
            outstanding: Ghost(outstanding@ + 1),
        };
        buffer
    }

    /// Returns a buffer to the pool. A buffer that was not lent by this
    /// provider is adopted.
    pub fn return_buffer(&mut self, buffer: Buffer)
        ensures
            final(self).accounted(),
            final(self).pool_len() == old(self).pool_len() + 1,
            final(self).outstanding() == (if old(self).outstanding() == 0 {
                0
            } else {
                (old(self).outstanding() - 1) as nat
            }),
            final(self).created() == (if old(self).outstanding() == 0 {
                old(self).created() + 1
            } else {
                old(self).created()
            }),
            final(self).queue() == old(self).queue(),
            final(self).actions() == old(self).actions(),
            final(self).buffer_size() == old(self).buffer_size(),
            final(self).max_queue() == old(self).max_queue(),
            final(self).next_token() == old(self).next_token(),
    {
        proof {
            use_type_invariant(&*self);
        }
        let mut taken = Provider::new(0, 0);
        core::mem::swap(self, &mut taken);
        let Provider {
            mut buffer_pool,
            out_queue,
            max_queue,
            actions,
            next_token,
            created,
            outstanding,
        } = taken;
        buffer_pool.push(buffer);
        *self = Provider {
            buffer_pool,
            out_queue,
            max_queue,
            actions,
            next_token,
            created: Ghost(
                if outstanding@ == 0 {
                    created@ + 1
                } else {
                    created@
                },
            ),
            outstanding: Ghost(
                if outstanding@ == 0 {
                    0
                } else {
                    (outstanding@ - 1) as nat
                },
            ),
        };
    }

    /// Queues the written bytes of `buffer` as a datagram for `addr`, behind
    /// those that wait already. Where the queue is at its cap the datagram is
    /// rejected and the buffer goes back to the pool.
    pub fn send(&mut self, buffer: Buffer, addr: SocketAddr) -> (r: Result<(), QueueFull>)
        ensures
            final(self).accounted(),
            r is Ok <==> old(self).queue().len() < old(self).max_queue(),
            r is Ok ==> final(self).queue() == old(self).queue().push((buffer@, addr))
                && final(self).pool_len() == old(self).pool_len(),
            r is Err ==> final(self).queue() == old(self).queue() && final(self).pool_len() == old(
                self,
            ).pool_len() + 1,
            final(self).outstanding() == (if old(self).outstanding() == 0 {
                0
            } else {
                (old(self).outstanding() - 1) as nat
            }),
            final(self).created() == (if old(self).outstanding() == 0 {
                old(self).created() + 1
            } else {
                old(self).created()
            }),
            final(self).actions() == old(self).actions(),
            final(self).buffer_size() == old(self).buffer_size(),
            final(self).max_queue() == old(self).max_queue(),
            final(self).next_token() == old(self).next_token(),
    {
        proof {
            use_type_invariant(&*self);
        }
        if self.out_queue.len() >= self.max_queue {
            self.return_buffer(buffer);
            return Err(QueueFull);
        }
        let mut taken = Provider::new(0, 0);
        core::mem::swap(self, &mut taken);
        let Provider {
            buffer_pool,
            mut out_queue,
            max_queue,
            actions,
            next_token,
            created,
            outstanding,
        } = taken;
        let ghost before = out_queue@;
        out_queue.push_back((buffer, addr));
        proof {
            assert(datagrams(out_queue@) =~= datagrams(before).push((buffer@, addr)));
        }
        *self = Provider {
            buffer_pool,
            out_queue,
            max_queue,
            actions,
            next_token,
            created: Ghost(
                if outstanding@ == 0 {
                    created@ + 1
                } else {
                    created@
                },
            ),
            outstanding: Ghost(
                if outstanding@ == 0 {
                    0
                } else {
                    (outstanding@ - 1) as nat
                },
            ),
        };
        Ok(())
    }

    /// Records `action` for the event loop.
    fn record(&mut self, action: Action<T, M>, bump_token: bool)
        ensures
            final(self).accounted(),
            final(self).actions() == old(self).actions().push(action),
            final(self).next_token() == (if bump_token {
                if old(self).next_token() == u64::MAX {
                    0
                } else {
                    (old(self).next_token() + 1) as u64
                }
            } else {
                old(self).next_token()
            }),
            final(self).pool_len() == old(self).pool_len(),
            final(self).queue() == old(self).queue(),
            final(self).created() == old(self).created(),
            final(self).outstanding() == old(self).outstanding(),
            final(self).buffer_size() == old(self).buffer_size(),
            final(self).max_queue() == old(self).max_queue(),
    {
        proof {
            use_type_invariant(&*self);
        }
        let mut taken = Provider::new(0, 0);
        core::mem::swap(self, &mut taken);
        let Provider {
            buffer_pool,
            out_queue,
            max_queue,
            mut actions,
            next_token,
            created,
            outstanding,
        } = taken;
        actions.push(action);
        let next_token = if bump_token {
            if next_token == u64::MAX {
                0
            } else {
                next_token + 1
            }
        } else {
            next_token
        };
        *self = Provider {
            buffer_pool,
            out_queue,
            max_queue,
            actions,
            next_token,
            created,
            outstanding,
        };
    }

    /// Asks for `timeout` to fire after `delay_ms` milliseconds and returns
    /// the token under which it can be cleared. Tokens count up from zero.
    pub fn set_timeout(&mut self, timeout: T, delay_ms: u64) -> (r: u64)
        ensures
            r == old(self).next_token(),
            final(self).accounted(),
            final(self).actions() == old(self).actions().push(
                Action::SetTimeout { token: r, timeout, delay_ms },
            ),
            final(self).next_token() == (if r == u64::MAX {
                0
            } else {
                (r + 1) as u64
            }),
            final(self).pool_len() == old(self).pool_len(),
            final(self).queue() == old(self).queue(),
            final(self).created() == old(self).created(),
            final(self).outstanding() == old(self).outstanding(),
            final(self).buffer_size() == old(self).buffer_size(),
            final(self).max_queue() == old(self).max_queue(),
    {
        let token = self.next_token;
        self.record(Action::SetTimeout { token, timeout, delay_ms }, true);
        token
    }

    /// Asks for the timeout under `token` not to fire. A timeout that is
    /// already due may fire all the same.
    pub fn clear_timeout(&mut self, token: u64)
        ensures
            final(self).accounted(),
            final(self).actions() == old(self).actions().push(Action::ClearTimeout { token }),
            final(self).next_token() == old(self).next_token(),
            final(self).pool_len() == old(self).pool_len(),
            final(self).queue() == old(self).queue(),
            final(self).created() == old(self).created(),
            final(self).outstanding() == old(self).outstanding(),
            final(self).buffer_size() == old(self).buffer_size(),
            final(self).max_queue() == old(self).max_queue(),
    {
        self.record(Action::ClearTimeout { token }, false);
    }

    /// Sends `message` to the handler itself, through the notification
    /// channel of the event loop.
    pub fn notify(&mut self, message: M)
        ensures
            final(self).accounted(),
            final(self).actions() == old(self).actions().push(Action::Notify { message }),
            final(self).next_token() == old(self).next_token(),
            final(self).pool_len() == old(self).pool_len(),
            final(self).queue() == old(self).queue(),
            final(self).created() == old(self).created(),
            final(self).outstanding() == old(self).outstanding(),
            final(self).buffer_size() == old(self).buffer_size(),
            final(self).max_queue() == old(self).max_queue(),
    {
        self.record(Action::Notify { message }, false);
    }

    /// Asks the event loop to stop.
    pub fn shutdown(&mut self)
        ensures
            final(self).accounted(),
            final(self).actions() == old(self).actions().push(Action::Shutdown),
            final(self).next_token() == old(self).next_token(),
            final(self).pool_len() == old(self).pool_len(),
            final(self).queue() == old(self).queue(),
            final(self).created() == old(self).created(),
            final(self).outstanding() == old(self).outstanding(),
            final(self).buffer_size() == old(self).buffer_size(),
            final(self).max_queue() == old(self).max_queue(),
    {
        self.record(Action::Shutdown, false);
    }

    /// Hands the recorded actions to the event loop, the first asked first.
    pub fn take_actions(&mut self) -> (r: Vec<Action<T, M>>)
        ensures
            r@ == old(self).actions(),
            final(self).accounted(),
            final(self).actions() == Seq::<Action<T, M>>::empty(),
            final(self).next_token() == old(self).next_token(),
            final(self).pool_len() == old(self).pool_len(),
            final(self).queue() == old(self).queue(),
            final(self).created() == old(self).created(),
            final(self).outstanding() == old(self).outstanding(),
            final(self).buffer_size() == old(self).buffer_size(),
            final(self).max_queue() == old(self).max_queue(),
    {
        proof {
            use_type_invariant(&*self);
        }
        let mut taken = Provider::new(0, 0);
        core::mem::swap(self, &mut taken);
        let Provider {
            buffer_pool,
            out_queue,
            max_queue,
            actions,
            next_token,
            created,
            outstanding,
        } = taken;
        *self = Provider {
            buffer_pool,
            out_queue,
            max_queue,
            actions: Vec::new(),
            next_token,
            created,
            outstanding,
        };
        actions
    }

    /// The number of datagrams that wait to be sent.
    pub fn queue_len(&self) -> (r: usize)
        ensures
            r == self.queue().len(),
            self.accounted(),
    {
        proof {
            use_type_invariant(self);
        }
        self.out_queue.len()
    }

    /// The number of buffers that wait in the pool. For diagnostics only.
    pub fn pool_size(&self) -> (r: usize)
        ensures
            r == self.pool_len(),
            self.accounted(),
    {
        proof {
            use_type_invariant(self);
        }
        self.buffer_pool.len()
    }

    /// The datagram at the head of the queue: its bytes and where they go.
    pub fn next_datagram(&self) -> (r: Option<(&[u8], SocketAddr)>)
        ensures
            r is Some <==> self.queue().len() > 0,
            r matches Some((bytes, addr)) ==> (bytes@, addr) == self.queue()[0],
    {
        if self.out_queue.len() == 0 {
            None
        } else {
            let entry = &self.out_queue[0];
            Some((entry.0.as_ref(), entry.1))
        }
    }

    /// Takes the datagram at the head of the queue off and returns its
    /// buffer to the pool. Says whether there was one.
    pub fn pop_datagram(&mut self) -> (r: bool)
        ensures
            r == (old(self).queue().len() > 0),
            final(self).accounted(),
            r ==> final(self).queue() == old(self).queue().subrange(
                1,
                old(self).queue().len() as int,
            ) && final(self).pool_len() == old(self).pool_len() + 1,
            !r ==> final(self).queue() == old(self).queue() && final(self).pool_len() == old(
                self,
            ).pool_len(),
            final(self).created() == old(self).created(),
            final(self).outstanding() == old(self).outstanding(),
            final(self).actions() == old(self).actions(),
            final(self).buffer_size() == old(self).buffer_size(),
            final(self).max_queue() == old(self).max_queue(),
            final(self).next_token() == old(self).next_token(),
    {
        proof {
            use_type_invariant(&*self);
        }
        let mut taken = Provider::new(0, 0);
        core::mem::swap(self, &mut taken);
        let Provider {
            mut buffer_pool,
            mut out_queue,
            max_queue,
            actions,
            next_token,
            created,
            outstanding,
        } = taken;
        let ghost before = out_queue@;
        let popped = out_queue.pop_front();
        let found = match popped {
            Some((buffer, _)) => {
                buffer_pool.push(buffer);
                true
            },
            None => false,
        };
        proof {
            if found {
                assert(datagrams(out_queue@) =~= datagrams(before).subrange(
                    1,
                    before.len() as int,
                ));
            }
        }
        *self = Provider {
            buffer_pool,
            out_queue,
            max_queue,
            actions,
            next_token,
            created,
            outstanding,
        };
        found
    }
}

} // verus!
