//! The channel primitives' contract: a first-in-first-out queue with an
//! optional capacity and a closed flag.
//!
//! The sender, receiver, ack and shutdown channels the client uses are
//! multi-producer multi-consumer queues owned by the runtime; this module
//! states and verifies the contract the core relies on — first-in-first-out
//! order, a capacity ceiling when one is configured, and a distinct error
//! kind once the counterpart is gone — on a queue value the runtime can keep
//! behind its lock.

use vstd::prelude::*;

verus! {

/// Why a channel operation failed.
#[derive(Clone, Copy, Debug, PartialEq, Eq, Structural)]
pub enum ChannelError {
    /// The channel is at its capacity.
    Full,
    /// The counterpart is gone: the channel is closed.
    Closed,
    /// Nothing is queued right now.
    Empty,
}

/// A first-in-first-out queue with an optional capacity and a closed flag.
pub struct Channel<T> {
    /// The queued items, oldest first.
    pub items: Vec<T>,
    /// The capacity ceiling; `None` is unbounded.
    pub capacity: Option<usize>,
    /// Whether the counterpart is gone.
    pub closed: bool,
}

impl<T> Channel<T> {
    /// Whether the queue is at its capacity.
    pub open spec fn spec_is_full(self) -> bool {
        match self.capacity {
            Some(cap) => self.items@.len() >= cap,
            None => false,
        }
    }

    /// Builds an open, empty channel with the given capacity; `None` is
    /// unbounded.
    pub fn new(capacity: Option<usize>) -> (r: Channel<T>)
        ensures
            r.items@ == Seq::<T>::empty(),
            r.capacity == capacity,
            !r.closed,
    {
        Channel { items: Vec::new(), capacity, closed: false }
    }

    /// How many items are queued.
    pub fn len(&self) -> (r: usize)
        ensures
            r == self.items@.len(),
    {
        self.items.len()
    }

    /// Whether nothing is queued.
    pub fn is_empty(&self) -> (r: bool)
        ensures
            r == (self.items@.len() == 0),
    {
        self.items.len() == 0
    }

    /// Enqueues a value at the back. Fails with `Closed` — handing the
    /// value back — once the counterpart is gone, and with `Full` at the
    /// capacity ceiling; otherwise the value joins the queue behind
    /// everything already queued.
    pub fn try_send(&mut self, value: T) -> (r: Result<(), (ChannelError, T)>)
        ensures
            old(self).closed ==> final (self).items@ == old(self).items@ && r == Err::<
                (),
                (ChannelError, T),
            >((ChannelError::Closed, value)),
            !old(self).closed && old(self).spec_is_full() ==> final (self).items@ == old(
                self,
            ).items@ && r == Err::<(), (ChannelError, T)>((ChannelError::Full, value)),
            !old(self).closed && !old(self).spec_is_full() ==> final (self).items@ == old(
                self,
            ).items@.push(value) && r == Ok::<(), (ChannelError, T)>(()),
            final (self).capacity == old(self).capacity,
            final (self).closed == old(self).closed,
    {
        if self.closed {
            return Err((ChannelError::Closed, value));
        }
        let full = match self.capacity {
            Some(cap) => self.items.len() >= cap,
            None => false,
        };
        if full {
            return Err((ChannelError::Full, value));
        }
        self.items.push(value);
        Ok(())
    }

    /// Dequeues the oldest item. An empty open channel fails with `Empty`;
    /// an empty closed channel fails with `Closed` — what was queued before
    /// the close still drains first.
    pub fn try_recv(&mut self) -> (r: Result<T, ChannelError>)
        ensures
            old(self).items@.len() > 0 ==> final (self).items@ == old(self).items@.skip(1)
                && match r {
                Ok(v) => v == old(self).items@[0],
                Err(_) => false,
            },
            old(self).items@.len() == 0 ==> final (self).items@ == old(self).items@ && r == Err::<
                T,
                ChannelError,
            >(
                if old(self).closed {
                    ChannelError::Closed
                } else {
                    ChannelError::Empty
                },
            ),
            final (self).capacity == old(self).capacity,
            final (self).closed == old(self).closed,
    {
        if self.items.len() == 0 {
            if self.closed {
                return Err(ChannelError::Closed);
            }
            return Err(ChannelError::Empty);
        }
        let value = self.items.remove(0);
        proof {
            assert(self.items@ =~= old(self).items@.skip(1));
        }
        Ok(value)
    }

    /// Marks the counterpart gone; everything already queued stays
    /// drainable.
    pub fn close(&mut self)
        ensures
            final (self).closed,
            final (self).items@ == old(self).items@,
            final (self).capacity == old(self).capacity,
    {
        self.closed = true;
    }
}

} // verus!
