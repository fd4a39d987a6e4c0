use vstd::prelude::*;

verus! {

/// A minimal mutual-exclusion gate.
///
/// The lock owns no data; it only records whether it is held. Acquisition is
/// only permitted while the lock is free: `lock` requires `!held()`, so a
/// verified caller can never acquire the same lock twice without an
/// intervening `release` — the re-acquisition that would otherwise wait
/// forever is ruled out at verification time rather than detected at run
/// time.
pub struct Spinlock {
    locked: bool,
}

impl Spinlock {
    /// Whether the lock is currently held.
    pub closed spec fn held(&self) -> bool {
        self.locked
    }

    /// A fresh lock starts out free.
    pub fn new() -> (r: Self)
        ensures
            !r.held(),
    {
        Spinlock { locked: false }
    }

    /// Acquire the lock.
    ///
    /// A held lock can never be handed to a second acquirer: the caller must
    /// show the lock is free, and on return it is held.
    pub fn lock(&mut self)
        requires
            !old(self).held(),
        ensures
            final(self).held(),
    {
        self.locked = true;
    }

    /// Release the lock unconditionally: on return the lock is free.
    pub fn unlock(&mut self)
        ensures
            !final(self).held(),
    {
        self.locked = false;
    }

    /// Report the lock's current state.
    pub fn is_locked(&self) -> (r: bool)
        ensures
            r == self.held(),
    {
        self.locked
    }
}

} // verus!
