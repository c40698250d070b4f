//! The lock around a payload.
//!
//! [`RwLock`] pairs a [`RawRwLock`] with the value it protects and
//! enforces the access discipline in its contracts: reading demands a
//! hold of any kind, mutation demands the exclusive hold, and every
//! lock operation leaves the payload untouched.  Like the raw lock it
//! serves a single thread of control, so the blocking acquisitions
//! appear as their try forms; a runtime that shares the payload between
//! threads wraps the word-level transitions instead and ties release to
//! scope exit.
//!
//! There is no poisoning: no operation below can mark the lock broken,
//! so after a scope ends by unwind — its release being the same
//! release — the payload is still observable and the lock still
//! grants.

use vstd::prelude::*;

verus! {

use crate::raw::RawRwLock;
use crate::state;

/// A reader-writer lock protecting a value of type `T`.
pub struct RwLock<T> {
    raw: RawRwLock,
    data: T,
}

impl<T> RwLock<T> {
    /// The current state word.
    pub closed spec fn word(&self) -> u64 {
        self.raw.word()
    }

    /// The protected value.
    pub closed spec fn value(&self) -> T {
        self.data
    }

    /// The lock invariant: the word is well formed.
    pub open spec fn inv(&self) -> bool {
        state::wf(self.word())
    }

    /// Whether any hold — shared, upgradable or exclusive — is present.
    pub open spec fn held_any(&self) -> bool {
        state::writer(self.word()) || state::shared_count(self.word()) > 0
    }

    /// Creates an unlocked lock around `val`.
    pub fn new(val: T) -> (r: RwLock<T>)
        ensures
            r.word() == 0,
            r.value() == val,
            r.inv(),
    {
        RwLock { raw: RawRwLock::new(), data: val }
    }

    /// Reads the state word.
    pub fn state_word(&self) -> (s: u64)
        ensures
            s == self.word(),
    {
        self.raw.state_word()
    }

    /// Consumes the lock and returns the value it protected.
    pub fn into_inner(self) -> (r: T)
        ensures
            r == self.value(),
    {
        self.data
    }

    /// Reads the protected value; a hold of any kind is the
    /// precondition for reading.
    pub fn borrow(&self) -> (r: &T)
        requires
            self.held_any(),
        ensures
            r == self.value(),
    {
        &self.data
    }

    /// Stores a new value; the exclusive hold is the precondition for
    /// mutation.
    pub fn store(&mut self, val: T)
        requires
            state::writer(old(self).word()),
        ensures
            final(self).value() == val,
            final(self).word() == old(self).word(),
    {
        self.data = val;
    }

    /// A mutable borrow of the whole lock proves no holder exists, so
    /// the value is handed out with no locking at all.
    pub fn get_mut(&mut self) -> (r: &mut T)
        requires
            old(self).word() == 0,
        ensures
            *r == old(self).value(),
            final(self).value() == *final(r),
            final(self).word() == 0,
    {
        &mut self.data
    }

    /// Attempts a shared acquisition; yields to parked waiters.
    pub fn try_read(&mut self) -> (r: bool)
        requires
            old(self).inv(),
        ensures
            r == state::shared_acquirable(old(self).word(), false),
            r ==> final(self).word() == state::with_reader(old(self).word()),
            !r ==> final(self).word() == old(self).word(),
            final(self).value() == old(self).value(),
            final(self).inv(),
    {
        self.raw.try_lock_shared(false)
    }

    /// Attempts a shared acquisition in the recursive mode, which does
    /// not yield to parked waiters and so never blocks against a hold
    /// the same thread already has.
    pub fn try_read_recursive(&mut self) -> (r: bool)
        requires
            old(self).inv(),
        ensures
            r == state::shared_acquirable(old(self).word(), true),
            r ==> final(self).word() == state::with_reader(old(self).word()),
            !r ==> final(self).word() == old(self).word(),
            final(self).value() == old(self).value(),
            final(self).inv(),
    {
        self.raw.try_lock_shared(true)
    }

    /// Attempts the exclusive acquisition.
    pub fn try_write(&mut self) -> (r: bool)
        requires
            old(self).inv(),
        ensures
            r == state::exclusive_fast_acquirable(old(self).word()),
            r ==> final(self).word() == state::WRITER_BIT,
            !r ==> final(self).word() == old(self).word(),
            final(self).value() == old(self).value(),
            final(self).inv(),
    {
        self.raw.try_lock_exclusive()
    }

    /// Attempts the upgradable acquisition.
    pub fn try_upgradable_read(&mut self) -> (r: bool)
        requires
            old(self).inv(),
        ensures
            r == state::upgradable_acquirable(old(self).word()),
            r ==> final(self).word() == state::with_upgradable(old(self).word()),
            !r ==> final(self).word() == old(self).word(),
            final(self).value() == old(self).value(),
            final(self).inv(),
    {
        self.raw.try_lock_upgradable()
    }

    /// Releases one shared hold.
    pub fn raw_unlock_read(&mut self)
        requires
            old(self).inv(),
            state::held_shared(old(self).word()),
        ensures
            final(self).word() == state::without_reader(old(self).word()),
            final(self).value() == old(self).value(),
            final(self).inv(),
    {
        self.raw.unlock_shared()
    }

    /// Releases the exclusive hold.
    pub fn raw_unlock_write(&mut self)
        requires
            old(self).inv(),
            state::writer(old(self).word()),
        ensures
            final(self).word() == state::without_writer(old(self).word()),
            final(self).value() == old(self).value(),
            final(self).inv(),
    {
        self.raw.unlock_exclusive()
    }

    /// Releases the upgradable hold.
    pub fn raw_unlock_upgradable_read(&mut self)
        requires
            old(self).inv(),
            state::upgradable(old(self).word()),
        ensures
            final(self).word() == state::without_upgradable(old(self).word()),
            final(self).value() == old(self).value(),
            final(self).inv(),
    {
        self.raw.unlock_upgradable()
    }

    /// Downgrades the exclusive hold to a shared hold in one step; no
    /// writer can take the lock in between, so the value read under the
    /// resulting shared hold is the value just written.
    pub fn raw_downgrade(&mut self)
        requires
            old(self).inv(),
            state::writer(old(self).word()),
        ensures
            final(self).word() == state::downgraded(old(self).word()),
            state::shared_count(final(self).word()) == 1,
            final(self).value() == old(self).value(),
            final(self).inv(),
    {
        self.raw.exclusive_to_shared()
    }

    /// Downgrades the upgradable hold to a plain shared hold in one
    /// step.
    pub fn raw_downgrade_upgradable_read(&mut self)
        requires
            old(self).inv(),
            state::upgradable(old(self).word()),
        ensures
            final(self).word() == state::downgraded_upgradable(old(self).word()),
            final(self).value() == old(self).value(),
            final(self).inv(),
    {
        self.raw.upgradable_to_shared()
    }

    /// Attempts to upgrade the upgradable hold to exclusive; on failure
    /// the upgradable hold is kept unchanged.
    pub fn raw_try_upgrade(&mut self) -> (r: bool)
        requires
            old(self).inv(),
            state::upgradable(old(self).word()),
        ensures
            r == (old(self).word() == state::UPGRADABLE_BIT + state::ONE_READER),
            r ==> final(self).word() == state::WRITER_BIT,
            !r ==> final(self).word() == old(self).word(),
            final(self).value() == old(self).value(),
            final(self).inv(),
    {
        self.raw.try_upgradable_to_exclusive()
    }
}

} // verus!
