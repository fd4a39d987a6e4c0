use vstd::prelude::*;

verus! {

/// A fixed-capacity circular buffer over `N` slots.
///
/// Elements enter at `write_idx` and leave at `read_idx`; both positions
/// advance modulo `N`. When the two positions coincide the buffer is either
/// empty or completely full; the explicit `full` flag disambiguates the two.
///
/// The abstract view (`view`, written `@` in contracts) is the sequence of
/// live elements in first-in, first-out order: the element at `read_idx`
/// first, the most recently pushed element last. `push` appends to that
/// sequence, `pop` removes its head; wrap-around of the concrete indices is
/// invisible at the view level.
pub struct RingBuffer<T, const N: usize> {
    slots: Vec<Option<T>>,
    read_idx: usize,
    write_idx: usize,
    full: bool,
}

impl<T: Copy, const N: usize> RingBuffer<T, N> {
    /// The number of live elements, computed from the concrete fields.
    closed spec fn len_spec(&self) -> int {
        if self.full {
            N as int
        } else if self.read_idx <= self.write_idx {
            self.write_idx - self.read_idx
        } else {
            self.write_idx - self.read_idx + N
        }
    }

    /// The slot that holds the `i`-th live element (oldest first): `read_idx`
    /// advanced by `i`, wrapped around the end of the slot vector.
    closed spec fn slot_index(&self, i: int) -> int {
        if self.read_idx + i < N {
            self.read_idx + i
        } else {
            self.read_idx + i - N
        }
    }

    /// Well-formedness: positions are in range, `full` only holds when the
    /// positions coincide, the first `len_spec()` slots counted from
    /// `read_idx` are occupied, and all remaining slots are vacant.
    pub closed spec fn wf(&self) -> bool {
        &&& 0 < N
        &&& self.slots@.len() == N
        &&& self.read_idx < N
        &&& self.write_idx < N
        &&& (self.full ==> self.read_idx == self.write_idx)
        &&& (forall|i: int|
            0 <= i < self.len_spec() ==> (#[trigger] self.slots@[self.slot_index(i)]) is Some)
        &&& (forall|i: int|
            self.len_spec() <= i < N ==> (#[trigger] self.slots@[self.slot_index(i)]) is None)
    }

    /// The live elements in first-in, first-out order.
    pub closed spec fn view(&self) -> Seq<T> {
        Seq::new(self.len_spec() as nat, |i: int| self.slots@[self.slot_index(i)]->Some_0)
    }

    /// Create an empty buffer: every slot vacant, both positions at zero.
    pub fn new() -> (r: Self)
        requires
            0 < N,
        ensures
            r.wf(),
            r@ == Seq::<T>::empty(),
    {
        let mut slots: Vec<Option<T>> = Vec::new();
        while slots.len() < N
            invariant
                slots@.len() <= N,
                forall|i: int| 0 <= i < slots@.len() ==> (#[trigger] slots@[i]) is None,
            decreases N - slots@.len(),
        {
            slots.push(None);
        }
        let r = RingBuffer { slots, read_idx: 0, write_idx: 0, full: false };
        assert(r@ =~= Seq::<T>::empty());
        r
    }

    /// Append `item` at the write position.
    ///
    /// On a full buffer the push is refused and nothing changes; otherwise
    /// the item is appended to the view, the write position advances modulo
    /// `N`, and `full` is set exactly when the positions collide again.
    pub fn push(&mut self, item: &T) -> (r: Result<(), ()>)
        requires
            old(self).wf(),
        ensures
            final(self).wf(),
            old(self)@.len() == N ==> r is Err && final(self)@ == old(self)@,
            old(self)@.len() < N ==> r is Ok && final(self)@ == old(self)@.push(*item),
    {
        if self.full {
            return Err(());
        }

        proof {
            assert(self.slot_index(self.len_spec()) == self.write_idx as int);
        }
        let w = self.write_idx;
        self.slots[w] = Some(*item);
        self.write_idx = (w + 1) % N;
        proof {
            if w + 1 < N {
                vstd::arithmetic::div_mod::lemma_small_mod((w + 1) as nat, N as nat);
            } else {
                vstd::arithmetic::div_mod::lemma_mod_self_0(N as int);
            }
            assert(self.write_idx == if w + 1 == N { 0int } else { w + 1 });
        }
        if self.write_idx == self.read_idx {
            self.full = true;
        }

        proof {
            let prev = old(self);
            let written = prev.slot_index(prev.len_spec());
            assert(self.len_spec() == prev.len_spec() + 1);
            assert forall|i: int| 0 <= i < self.len_spec() implies (
            #[trigger] self.slots@[self.slot_index(i)]) is Some by {
                if i < prev.len_spec() {
                    assert(prev.slots@[prev.slot_index(i)] is Some);
                    assert(prev.slot_index(i) != written);
                }
            }
            assert forall|i: int| self.len_spec() <= i < N implies (
            #[trigger] self.slots@[self.slot_index(i)]) is None by {
                assert(prev.slots@[prev.slot_index(i)] is None);
                assert(prev.slot_index(i) != written);
            }
            assert forall|i: int| 0 <= i < prev.len_spec() implies self@[i] == prev@[i] by {
                assert(prev.slot_index(i) != written);
            }
            assert(self@[prev.len_spec()] == *item);
            assert(self@ =~= prev@.push(*item));
        }
        Ok(())
    }

    /// Remove and return the oldest element.
    ///
    /// On an empty buffer nothing changes and no element is returned;
    /// otherwise the head of the view comes back, its slot is vacated, the
    /// read position advances modulo `N`, and `full` is cleared.
    pub fn pop(&mut self) -> (r: Option<T>)
        requires
            old(self).wf(),
        ensures
            final(self).wf(),
            old(self)@.len() == 0 ==> r is None && final(self)@ == old(self)@,
            old(self)@.len() > 0 ==> r == Some(old(self)@[0]) && final(self)@ == old(self)@.skip(
                1,
            ),
    {
        if self.is_empty() {
            return None;
        }

        proof {
            assert(self.slot_index(0) == self.read_idx as int);
        }
        let r = self.read_idx;
        let item = self.slots[r];
        self.slots[r] = None;
        self.read_idx = (r + 1) % N;
        proof {
            if r + 1 < N {
                vstd::arithmetic::div_mod::lemma_small_mod((r + 1) as nat, N as nat);
            } else {
                vstd::arithmetic::div_mod::lemma_mod_self_0(N as int);
            }
            assert(self.read_idx == if r + 1 == N { 0int } else { r + 1 });
        }
        self.full = false;

        proof {
            let prev = old(self);
            assert(self.len_spec() == prev.len_spec() - 1);
            assert forall|i: int| 0 <= i < N implies self.slot_index(i) == prev.slot_index(
                i + 1,
            ) by {}
            assert forall|i: int| 0 <= i < self.len_spec() implies (
            #[trigger] self.slots@[self.slot_index(i)]) is Some by {
                assert(prev.slots@[prev.slot_index(i + 1)] is Some);
                assert(prev.slot_index(i + 1) != prev.slot_index(0));
            }
            assert forall|i: int| self.len_spec() <= i < N implies (
            #[trigger] self.slots@[self.slot_index(i)]) is None by {
                if self.slot_index(i) != prev.slot_index(0) {
                    assert(prev.slots@[prev.slot_index(i + 1)] is None);
                }
            }
            assert(prev.slots@[prev.slot_index(0)] is Some);
            assert forall|i: int| 0 <= i < self.len_spec() implies self@[i] == prev@[i + 1] by {
                assert(prev.slot_index(i + 1) != prev.slot_index(0));
            }
            assert(self@ =~= prev@.skip(1));
        }
        item
    }

    /// Whether the buffer holds no elements: the positions coincide and the
    /// `full` flag is clear.
    pub fn is_empty(&self) -> (r: bool)
        requires
            self.wf(),
        ensures
            r == (self@.len() == 0),
    {
        !self.full && self.read_idx == self.write_idx
    }
}

/// First-in, first-out order: if a buffer holds the values `s`, oldest
/// first, then after `i` pops — each of which, by `pop`'s contract, returns
/// the head of the view and leaves its tail — the view is `s.skip(i)`, the
/// next pop returns `s[i]`, and it leaves `s.skip(i + 1)`: the values come
/// back in exactly the order they were pushed.
pub proof fn lemma_fifo_order<T>(s: Seq<T>, i: int)
    requires
        0 <= i < s.len(),
    ensures
        s.skip(i)[0] == s[i],
        s.skip(i).skip(1) =~= s.skip(i + 1),
{
}

/// Capacity bound: a buffer holding `cap` values, `cap` being its capacity,
/// has no room, so by `push`'s contract the next push returns `Err` and
/// changes nothing; and one pop — leaving `s.skip(1)` — always makes room,
/// after which the next push returns `Ok`, again by `push`'s contract.
pub proof fn lemma_capacity_bound<T>(s: Seq<T>, cap: nat)
    requires
        s.len() == cap,
        0 < cap,
    ensures
        !(s.len() < cap),
        s.skip(1).len() < cap,
{
}

/// Empty after drain: popping every held value — `s.len()` pops, each
/// taking the head of the view — leaves the empty view, on which
/// `is_empty` returns true and `pop` returns `None`, by their contracts.
pub proof fn lemma_empty_after_drain<T>(s: Seq<T>)
    ensures
        s.skip(s.len() as int) =~= Seq::<T>::empty(),
{
}

} // verus!
