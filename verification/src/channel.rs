use vstd::prelude::*;

use crate::ring_buffer::RingBuffer;
use crate::spinlock::Spinlock;

verus! {

/// Ceiling on the spin count of the retry cadence: however many attempts
/// have failed, no single wait spins more than this many times.
pub const MAX_BACKOFF: usize = 1024;

/// A fixed-capacity channel: one ring buffer and one lock.
///
/// The lock serializes every buffer access: `send` and `receive` bracket
/// their push or pop between `lock` and `unlock`, and the channel's
/// well-formedness invariant states that the lock is free between
/// operations. Because all mutation is funneled through those two
/// operations, items leave in exactly the order they entered: the view
/// (`@`) is the sequence of undelivered items, oldest first.
///
/// The channel is exercised here through exclusive references, which stand
/// in for the serialization that the lock provides among shared holders:
/// with no other holder able to intervene, an operation that meets its
/// capacity precondition succeeds on its first locked attempt, so `send`
/// requires room and `receive` requires an undelivered item instead of
/// waiting for one. The retry cadence a waiting holder follows between
/// attempts is `next_backoff`.
pub struct Channel<T, const N: usize> {
    buffer: RingBuffer<T, N>,
    lock: Spinlock,
}

impl<T: Copy, const N: usize> Channel<T, N> {
    /// Well-formedness: the buffer's own invariant holds and the lock is
    /// free, as it is whenever no operation is in flight.
    pub closed spec fn wf(&self) -> bool {
        &&& self.buffer.wf()
        &&& !self.lock.held()
    }

    /// The undelivered items, oldest first.
    pub closed spec fn view(&self) -> Seq<T> {
        self.buffer@
    }

    /// A fresh channel is fully initialized before use: empty buffer,
    /// unlocked lock.
    pub fn new() -> (c: Self)
        requires
            0 < N,
        ensures
            c.wf(),
            c@ == Seq::<T>::empty(),
    {
        Channel { buffer: RingBuffer::new(), lock: Spinlock::new() }
    }

    /// Deliver `item` into the channel.
    ///
    /// The buffer is touched only between acquiring and releasing the lock.
    /// Given room — the stand-in for blocking until a consumer frees a slot —
    /// the locked push succeeds and appends `item` to the view.
    pub fn send(&mut self, item: T)
        requires
            old(self).wf(),
            old(self)@.len() < N,
        ensures
            final(self).wf(),
            final(self)@ == old(self)@.push(item),
    {
        self.lock.lock();
        let _ = self.buffer.push(&item);
        self.lock.unlock();
    }

    /// Take the oldest undelivered item out of the channel.
    ///
    /// The buffer is touched only between acquiring and releasing the lock.
    /// Given an undelivered item — the stand-in for blocking until a
    /// producer supplies one — the locked pop succeeds and returns the head
    /// of the view, leaving its tail.
    pub fn receive(&mut self) -> (r: T)
        requires
            old(self).wf(),
            old(self)@.len() > 0,
        ensures
            final(self).wf(),
            r == old(self)@[0],
            final(self)@ == old(self)@.skip(1),
    {
        self.lock.lock();
        let item = self.buffer.pop();
        self.lock.unlock();
        item.unwrap()
    }
}

/// One step of the retry cadence a holder follows when an attempt finds the
/// channel full (for `send`) or empty (for `receive`): the spin count
/// doubles after every failed attempt and is capped at `MAX_BACKOFF`,
/// independent of capacity and of the number of holders. Every call of
/// `send` or `receive` starts afresh from a count of one; the count never
/// persists across calls.
pub fn next_backoff(current: usize) -> (r: usize)
    ensures
        2 * current <= MAX_BACKOFF ==> r == 2 * current,
        2 * current > MAX_BACKOFF ==> r == MAX_BACKOFF,
{
    if current <= MAX_BACKOFF / 2 {
        current * 2
    } else {
        MAX_BACKOFF
    }
}

} // verus!
