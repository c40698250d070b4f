//! The raw lock over a state word it owns.
//!
//! [`RawRwLock`] packages the verified transitions of [`crate::state`]
//! behind the raw lock API: try-acquire and release for the shared,
//! exclusive and upgradable modes, and the atomic transitions between
//! them.  It holds the word directly and mutates it in place, so it
//! serves a single thread of control; acquisitions that would have to
//! wait report failure instead.  A runtime that shares the word between
//! threads keeps it in an atomic and drives the same transitions — and
//! the parking decisions of [`crate::park`] — through compare-exchange.

use vstd::prelude::*;

verus! {

use crate::state;
use crate::state::UPGRADABLE_BIT;
use crate::state::ONE_READER;
use crate::state::WRITER_BIT;

/// A reader-writer lock core: any number of shared holders, at most one
/// exclusive holder, and at most one upgradable holder that counts as a
/// shared holder and may turn exclusive in one step.
pub struct RawRwLock {
    state: u64,
}

impl RawRwLock {
    /// The current state word.
    pub closed spec fn word(&self) -> u64 {
        self.state
    }

    /// The lock invariant: the word is well formed.
    pub open spec fn inv(&self) -> bool {
        state::wf(self.word())
    }

    /// Creates an unlocked lock.
    pub fn new() -> (r: RawRwLock)
        ensures
            r.word() == 0,
            r.inv(),
    {
        proof {
            state::lemma_unlocked_wf();
        }
        RawRwLock { state: 0 }
    }

    /// Reads the state word.
    pub fn state_word(&self) -> (s: u64)
        ensures
            s == self.word(),
    {
        self.state
    }

    /// Whether any holder is present.
    pub fn is_locked(&self) -> (b: bool)
        ensures
            b == (state::writer(self.word()) || state::shared_count(self.word()) > 0),
    {
        let s = self.state;
        state::is_writer(s) || state::count_of(s) > 0
    }

    /// Attempts a shared acquisition.  Grants it exactly when no
    /// exclusive holder is present, the count has room, and — in the
    /// non-recursive mode — no shared/exclusive waiter is parked.
    pub fn try_lock_shared(&mut self, recursive: bool) -> (r: bool)
        requires
            old(self).inv(),
        ensures
            r == state::shared_acquirable(old(self).word(), recursive),
            r ==> final(self).word() == state::with_reader(old(self).word()),
            !r ==> final(self).word() == old(self).word(),
            final(self).inv(),
    {
        match state::shared_fast(self.state, recursive) {
            Some(n) => {
                self.state = n;
                true
            },
            None => false,
        }
    }

    /// Attempts an exclusive acquisition.  Grants it exactly when the
    /// lock is fully quiescent: no holder of any kind and no parked
    /// waiter.
    pub fn try_lock_exclusive(&mut self) -> (r: bool)
        requires
            old(self).inv(),
        ensures
            r == state::exclusive_fast_acquirable(old(self).word()),
            r ==> final(self).word() == WRITER_BIT,
            !r ==> final(self).word() == old(self).word(),
            final(self).inv(),
    {
        match state::exclusive_fast(self.state) {
            Some(n) => {
                self.state = n;
                true
            },
            None => false,
        }
    }

    /// Attempts an upgradable acquisition.  Grants it exactly when no
    /// exclusive holder, no other upgradable holder and no parked
    /// upgradable waiter is present, and the count has room.
    pub fn try_lock_upgradable(&mut self) -> (r: bool)
        requires
            old(self).inv(),
        ensures
            r == state::upgradable_acquirable(old(self).word()),
            r ==> final(self).word() == state::with_upgradable(old(self).word()),
            !r ==> final(self).word() == old(self).word(),
            final(self).inv(),
    {
        match state::upgradable_fast(self.state) {
            Some(n) => {
                self.state = n;
                true
            },
            None => false,
        }
    }

    /// Releases one shared holder.
    pub fn unlock_shared(&mut self)
        requires
            old(self).inv(),
            state::held_shared(old(self).word()),
        ensures
            final(self).word() == state::without_reader(old(self).word()),
            final(self).inv(),
    {
        self.state = state::unlock_shared_word(self.state);
    }

    /// Releases the exclusive holder.
    pub fn unlock_exclusive(&mut self)
        requires
            old(self).inv(),
            state::writer(old(self).word()),
        ensures
            final(self).word() == state::without_writer(old(self).word()),
            final(self).inv(),
    {
        self.state = state::unlock_exclusive_word(self.state);
    }

    /// Releases the upgradable holder.
    pub fn unlock_upgradable(&mut self)
        requires
            old(self).inv(),
            state::upgradable(old(self).word()),
        ensures
            final(self).word() == state::without_upgradable(old(self).word()),
            final(self).inv(),
    {
        self.state = state::unlock_upgradable_word(self.state);
    }

    /// Downgrades the exclusive holder to a shared holder in one step;
    /// no writer can take the lock in between.
    pub fn exclusive_to_shared(&mut self)
        requires
            old(self).inv(),
            state::writer(old(self).word()),
        ensures
            final(self).word() == state::downgraded(old(self).word()),
            state::shared_count(final(self).word()) == 1,
            !state::writer(final(self).word()),
            final(self).inv(),
    {
        self.state = state::downgrade_word(self.state);
    }

    /// Downgrades the upgradable holder to a plain shared holder in one
    /// step; no writer can take the lock in between.
    pub fn upgradable_to_shared(&mut self)
        requires
            old(self).inv(),
            state::upgradable(old(self).word()),
        ensures
            final(self).word() == state::downgraded_upgradable(old(self).word()),
            !state::upgradable(final(self).word()),
            state::shared_count(final(self).word()) == state::shared_count(old(self).word()),
            final(self).inv(),
    {
        self.state = state::downgrade_upgradable_word(self.state);
    }

    /// Attempts to upgrade the upgradable holder to exclusive.  Succeeds
    /// exactly when its own reader slot is the only holder and no waiter
    /// is parked; on failure the upgradable hold is kept unchanged.
    pub fn try_upgradable_to_exclusive(&mut self) -> (r: bool)
        requires
            old(self).inv(),
            state::upgradable(old(self).word()),
        ensures
            r == (old(self).word() == UPGRADABLE_BIT + ONE_READER),
            r ==> final(self).word() == WRITER_BIT,
            !r ==> final(self).word() == old(self).word(),
            final(self).inv(),
    {
        match state::upgrade_fast(self.state) {
            Some(n) => {
                self.state = n;
                true
            },
            None => false,
        }
    }
}

} // verus!
