//! A minimal mutual-exclusion primitive: one boolean flag, a non-blocking
//! `try_lock`, a busy-waiting `lock`, and an explicit release that consumes the
//! guard handed out on acquisition.

use vstd::prelude::*;

verus! {

/// A spin lock guarding the queue's overwrite path against concurrent reads.
pub(crate) struct LightLock {
    pub(crate) locked: bool,
}

/// Witness that the lock is currently held. A guard is handed out only by a
/// successful acquisition, is not duplicable, and releasing the lock consumes
/// it, so each acquire is paired with exactly one release.
pub(crate) struct LightGuard {}

impl LightLock {
    /// Whether the lock is currently held.
    pub(crate) open spec fn is_locked(&self) -> bool {
        self.locked
    }

    /// A fresh, unheld lock.
    pub(crate) fn new() -> (r: LightLock)
        ensures
            !r.is_locked(),
    {
        LightLock { locked: false }
    }

    /// Non-blocking acquire: transitions free -> held and hands out a guard
    /// exactly when the lock was free; otherwise leaves the held lock as it is.
    pub(crate) fn try_lock(&mut self) -> (r: Option<LightGuard>)
        ensures
            final(self).is_locked(),
            r is Some <==> !old(self).is_locked(),
    {
        let was_locked = self.locked;
        self.locked = true;
        if was_locked {
            None
        } else {
            Some(LightGuard {})
        }
    }

    /// Acquire by retrying `try_lock` until it succeeds. Only the holder of
    /// the one guard could free a held lock, so acquisition asks for a free
    /// lock, where the retry loop succeeds at once.
    pub(crate) fn lock(&mut self) -> (g: LightGuard)
        requires
            !old(self).is_locked(),
        ensures
            final(self).is_locked(),
    {
        loop
            invariant
                !self.is_locked(),
            decreases 0int,
        {
            match self.try_lock() {
                None => continue,
                Some(g) => return g,
            }
        }
    }

    /// Release: consumes the guard and marks the lock free again.
    pub(crate) fn unlock(&mut self, _guard: LightGuard)
        ensures
            !final(self).is_locked(),
    {
        self.locked = false;
    }
}

} // verus!
