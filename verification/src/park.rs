//! Decisions for the parking protocol.
//!
//! Waiting happens on an external parking queue: a process-wide wait
//! queue keyed by an address, with one key for shared/exclusive waiters
//! and a second key for upgradable waiters.  The queue suspends and
//! resumes threads; everything it needs decided — when a waiter may
//! take the lock, when it raises a queue-control bit, whether a park is
//! still valid once the queue's own lock is held, and which word a
//! releaser installs on behalf of the waiters it wakes — is computed
//! here, as verified functions on the state word and on plain facts
//! reported by the queue.
//!
//! The runtime that drives the queue observes the word, asks for the
//! step, and applies the returned word with a compare-exchange; on a
//! compare-exchange failure it re-observes and asks again.  A direct
//! handoff installs the waiter's hold before the waiter runs, so nobody
//! can slip in ahead of it; where another thread already took the lock
//! between a release and its wake pass, [`wake_step`] withholds the
//! handoff and the waiters are woken to retry, which is safe on every
//! word.

use vstd::prelude::*;

verus! {

use crate::state;
use crate::state::MAX_READERS;
use crate::state::PARKED_BIT;
use crate::state::UPGRADABLE_BIT;
use crate::state::UPGRADABLE_PARKED_BIT;
use crate::state::WRITER_BIT;

/// The park token of a waiter that wants a shared hold.
pub const TOKEN_SHARED: u64 = 1;
/// The park token of a waiter that wants an exclusive hold.
pub const TOKEN_EXCLUSIVE: u64 = 2;
/// The park token of a waiter that wants an upgradable hold.
pub const TOKEN_UPGRADABLE: u64 = 3;
/// The park token of an upgradable holder waiting to upgrade.
pub const TOKEN_UPGRADING: u64 = 4;

/// The unpark token of an ordinary wake: the waiter re-runs its
/// acquisition loop.
pub const TOKEN_NORMAL: u64 = 0;
/// The unpark token of a direct handoff: the waker installed the
/// waiter's hold already; the waiter returns without retrying.
pub const TOKEN_HANDOFF: u64 = 1;

/// How many spin attempts an acquisition makes before it parks.
pub const SPIN_LIMIT: u32 = 40;

/// One step of an acquisition loop.
#[derive(Clone, Copy, PartialEq, Eq, Structural, Debug)]
pub enum AcquireStep {
    /// Exchange the observed word for this one; the hold is then taken.
    Acquire(u64),
    /// Exchange the observed word for this one, which raises the queue's
    /// parked flag, then observe again.
    MarkParked(u64),
    /// Suspend on the queue.
    Park,
}

/// Whether an acquisition should still spin instead of parking.
pub fn should_spin(attempt: u32) -> (b: bool)
    ensures
        b == (attempt < SPIN_LIMIT),
{
    attempt < SPIN_LIMIT
}

/// The exponential back-off for one spin attempt: how many spin hints
/// to issue, doubling up to a cap.
pub fn backoff_steps(attempt: u32) -> (k: u32)
    ensures
        k == 1u32 << (if attempt < 6 { attempt } else { 6u32 }),
{
    if attempt < 6 {
        1u32 << attempt
    } else {
        1u32 << 6u32
    }
}

/// The next step of a shared acquisition: take the lock when it is
/// acquirable, otherwise raise the parked flag, otherwise park.
pub fn shared_acquire_step(s: u64, recursive: bool) -> (r: AcquireStep)
    ensures
        state::shared_acquirable(s, recursive) ==> r == AcquireStep::Acquire(
            state::with_reader(s),
        ),
        !state::shared_acquirable(s, recursive) && !state::parked(s) ==> r
            == AcquireStep::MarkParked((s + PARKED_BIT) as u64),
        !state::shared_acquirable(s, recursive) && state::parked(s) ==> r == AcquireStep::Park,
        r matches AcquireStep::Acquire(n) ==> state::wf(s) ==> state::wf(n),
        r matches AcquireStep::MarkParked(n) ==> (state::wf(s) ==> state::wf(n)),
{
    match state::shared_fast(s, recursive) {
        Some(n) => AcquireStep::Acquire(n),
        None => {
            if !state::is_parked(s) {
                AcquireStep::MarkParked(state::set_parked_word(s))
            } else {
                AcquireStep::Park
            }
        },
    }
}

/// The next step of an exclusive acquisition.  The acquiring form keeps
/// the queue-control bits, so a woken writer can take the lock while
/// others stay parked.
pub fn exclusive_acquire_step(s: u64) -> (r: AcquireStep)
    ensures
        state::exclusive_acquirable(s) ==> r == AcquireStep::Acquire(state::with_writer(s)),
        !state::exclusive_acquirable(s) && !state::parked(s) ==> r == AcquireStep::MarkParked(
            (s + PARKED_BIT) as u64,
        ),
        !state::exclusive_acquirable(s) && state::parked(s) ==> r == AcquireStep::Park,
        r matches AcquireStep::Acquire(n) ==> state::wf(n),
        r matches AcquireStep::MarkParked(n) ==> (state::wf(s) ==> state::wf(n)),
{
    match state::exclusive_retry(s) {
        Some(n) => AcquireStep::Acquire(n),
        None => {
            if !state::is_parked(s) {
                AcquireStep::MarkParked(state::set_parked_word(s))
            } else {
                AcquireStep::Park
            }
        },
    }
}

/// The next step of an upgradable acquisition; its waiters use the
/// upgradable queue and its own parked flag.
pub fn upgradable_acquire_step(s: u64) -> (r: AcquireStep)
    ensures
        state::upgradable_acquirable(s) ==> r == AcquireStep::Acquire(state::with_upgradable(s)),
        !state::upgradable_acquirable(s) && !state::upg_parked(s) ==> r == AcquireStep::MarkParked(
            (s + UPGRADABLE_PARKED_BIT) as u64,
        ),
        !state::upgradable_acquirable(s) && state::upg_parked(s) ==> r == AcquireStep::Park,
        r matches AcquireStep::Acquire(n) ==> state::wf(s) ==> state::wf(n),
        r matches AcquireStep::MarkParked(n) ==> (state::wf(s) ==> state::wf(n)),
{
    match state::upgradable_fast(s) {
        Some(n) => AcquireStep::Acquire(n),
        None => {
            if !state::is_upg_parked(s) {
                AcquireStep::MarkParked(state::set_upg_parked_word(s))
            } else {
                AcquireStep::Park
            }
        },
    }
}

/// The next step of an upgrade: the upgradable holder takes the lock
/// exclusively once its own reader slot is the last, and otherwise
/// waits on the shared/exclusive queue under the upgrading token.
pub fn upgrade_acquire_step(s: u64) -> (r: AcquireStep)
    requires
        state::upgradable(s),
    ensures
        state::upgrade_acquirable(s) ==> r == AcquireStep::Acquire(state::upgraded(s)),
        !state::upgrade_acquirable(s) && !state::parked(s) ==> r == AcquireStep::MarkParked(
            (s + PARKED_BIT) as u64,
        ),
        !state::upgrade_acquirable(s) && state::parked(s) ==> r == AcquireStep::Park,
        r matches AcquireStep::Acquire(n) ==> state::wf(n),
        r matches AcquireStep::MarkParked(n) ==> (state::wf(s) ==> state::wf(n)),
{
    match state::upgrade_retry(s) {
        Some(n) => AcquireStep::Acquire(n),
        None => {
            if !state::is_parked(s) {
                AcquireStep::MarkParked(state::set_parked_word(s))
            } else {
                AcquireStep::Park
            }
        },
    }
}

/// Whether a shared waiter, once the queue's own lock is held, should
/// still go to sleep: it must still be blocked and the parked flag must
/// still be raised, else the park is abandoned and the loop re-runs.
pub fn shared_park_validate(s: u64, recursive: bool) -> (b: bool)
    ensures
        b == (state::parked(s) && !state::shared_acquirable(s, recursive)),
{
    state::is_parked(s) && state::shared_fast(s, recursive).is_none()
}

/// Whether an exclusive waiter should still go to sleep.
pub fn exclusive_park_validate(s: u64) -> (b: bool)
    ensures
        b == (state::parked(s) && !state::exclusive_acquirable(s)),
{
    state::is_parked(s) && state::exclusive_retry(s).is_none()
}

/// Whether an upgradable waiter should still go to sleep.
pub fn upgradable_park_validate(s: u64) -> (b: bool)
    ensures
        b == (state::upg_parked(s) && !state::upgradable_acquirable(s)),
{
    state::is_upg_parked(s) && state::upgradable_fast(s).is_none()
}

/// Whether an upgrading holder should still go to sleep.
pub fn upgrade_park_validate(s: u64) -> (b: bool)
    ensures
        b == (state::parked(s) && !state::upgrade_acquirable(s)),
{
    state::is_parked(s) && !(state::is_upgradable(s) && !state::is_writer(s) && state::count_of(s)
        == 1)
}

/// A shared release: the word drops one reader, and the releaser must
/// run the wake pass exactly when waiters are flagged and either no
/// holder remains or only a waiting upgrader's slot does.
pub fn shared_release_step(s: u64) -> (r: (u64, bool))
    requires
        state::wf(s),
        state::held_shared(s),
    ensures
        r.0 == state::without_reader(s),
        state::wf(r.0),
        r.1 == (state::parked(r.0) && (state::shared_count(r.0) == 0 || (state::shared_count(r.0)
            == 1 && state::upgradable(r.0)))),
{
    let n = state::unlock_shared_word(s);
    let wake = state::is_parked(n) && (state::count_of(n) == 0 || (state::count_of(n) == 1
        && state::is_upgradable(n)));
    (n, wake)
}

/// An exclusive release: the word drops the exclusive bit, and the
/// releaser must run the wake pass exactly when either queue flags
/// waiters.
pub fn exclusive_release_step(s: u64) -> (r: (u64, bool))
    requires
        state::wf(s),
        state::writer(s),
    ensures
        r.0 == state::without_writer(s),
        state::wf(r.0),
        r.1 == (state::parked(r.0) || state::upg_parked(r.0)),
{
    let n = state::unlock_exclusive_word(s);
    let wake = state::is_parked(n) || state::is_upg_parked(n);
    (n, wake)
}

/// An upgradable release: the word drops the upgradable bit and its
/// reader slot, and the releaser must run the wake pass exactly when
/// waiters are flagged on either queue and no holder blocks them.
pub fn upgradable_release_step(s: u64) -> (r: (u64, bool))
    requires
        state::wf(s),
        state::upgradable(s),
    ensures
        r.0 == state::without_upgradable(s),
        state::wf(r.0),
        r.1 == ((state::parked(r.0) && state::shared_count(r.0) == 0) || state::upg_parked(r.0)),
{
    let n = state::unlock_upgradable_word(s);
    let wake = (state::is_parked(n) && state::count_of(n) == 0) || state::is_upg_parked(n);
    (n, wake)
}

/// What the releaser saw at the head of the shared/exclusive queue,
/// reported by the queue under its own lock.
#[derive(Clone, Copy, PartialEq, Eq, Structural, Debug)]
pub enum QueueView {
    /// No waiter is left on the key: the parked flag was spurious.
    Empty,
    /// The first waiter wants an exclusive hold; `more` reports whether
    /// waiters remain behind it.
    FirstWriter { more: bool },
    /// The selected waiter is the upgrading holder; `more` reports
    /// whether waiters remain behind it.
    FirstUpgrader { more: bool },
    /// Readers stand at the front: `n` of them, up to the first waiting
    /// writer; `writer_behind` reports whether such a writer remains.
    Readers { n: u64, writer_behind: bool },
}

/// What a releaser installs and signals after inspecting the queue.
pub struct WakePlan {
    /// The word to install.
    pub word: u64,
    /// Wake with the direct-handoff token: the hold is pre-granted in
    /// `word`, and the woken waiters return without retrying.
    pub handoff: bool,
    /// Additionally wake one waiter from the upgradable queue.
    pub wake_upgradable: bool,
}

/// The wake policy, run once a release has cleared the holder.
///
/// A writer at the head is granted the lock directly — barging
/// prevention: the exclusive bit is set on its behalf before it runs.
/// A waiting upgrader whose slot is the last is granted the upgrade the
/// same way.  Readers at the head are pre-granted all at once: the
/// count is raised by their number before they run.  The parked flag
/// stays raised exactly when waiters remain behind the woken ones, and
/// one upgradable waiter is woken whenever its flag is raised and no
/// upgradable holder remains.
pub fn wake_plan(s: u64, q: QueueView) -> (r: WakePlan)
    requires
        state::wf(s),
        !state::writer(s),
        state::parked(s),
        q matches QueueView::FirstWriter { .. } ==> state::shared_count(s) == 0
            && !state::upgradable(s),
        q matches QueueView::FirstUpgrader { .. } ==> state::upgrade_acquirable(s),
        q matches QueueView::Readers { n, .. } ==> 1 <= n && state::shared_count(s) + n
            <= MAX_READERS,
    ensures
        state::wf(r.word),
        state::upg_parked(r.word) == state::upg_parked(s),
        r.wake_upgradable == (state::upg_parked(s) && !state::upgradable(r.word)),
        q is Empty ==> ({
            &&& r.word == s - PARKED_BIT
            &&& !state::parked(r.word)
            &&& !r.handoff
            &&& state::writer(r.word) == state::writer(s)
            &&& state::upgradable(r.word) == state::upgradable(s)
            &&& state::shared_count(r.word) == state::shared_count(s)
        }),
        q matches QueueView::FirstWriter { more } ==> ({
            &&& state::writer(r.word)
            &&& !state::upgradable(r.word)
            &&& state::shared_count(r.word) == 0
            &&& state::parked(r.word) == more
            &&& r.handoff
        }),
        q matches QueueView::FirstUpgrader { more } ==> ({
            &&& state::writer(r.word)
            &&& !state::upgradable(r.word)
            &&& state::shared_count(r.word) == 0
            &&& state::parked(r.word) == more
            &&& r.handoff
        }),
        q matches QueueView::Readers { n, writer_behind } ==> ({
            &&& !state::writer(r.word)
            &&& state::upgradable(r.word) == state::upgradable(s)
            &&& state::shared_count(r.word) == state::shared_count(s) + n
            &&& state::parked(r.word) == writer_behind
            &&& r.handoff
        }),
{
    proof {
        state::lemma_unpack(s);
    }
    let upg_waiters = state::is_upg_parked(s);
    match q {
        QueueView::Empty => {
            let word = state::clear_parked_word(s);
            WakePlan { word, handoff: false, wake_upgradable: upg_waiters && !state::is_upgradable(
                s,
            ) }
        },
        QueueView::FirstWriter { more } => {
            let base = if more {
                s
            } else {
                state::clear_parked_word(s)
            };
            let word = base + WRITER_BIT;
            proof {
                state::lemma_pack(if more { 1int } else { 0int }, state::q_of(s), 1, 0, 0);
            }
            WakePlan { word, handoff: true, wake_upgradable: upg_waiters }
        },
        QueueView::FirstUpgrader { more } => {
            let base = if more {
                s
            } else {
                state::clear_parked_word(s)
            };
            let word = base - (UPGRADABLE_BIT + state::ONE_READER) + WRITER_BIT;
            proof {
                state::lemma_pack(if more { 1int } else { 0int }, state::q_of(s), 1, 0, 0);
            }
            WakePlan { word, handoff: true, wake_upgradable: upg_waiters }
        },
        QueueView::Readers { n, writer_behind } => {
            let base = if writer_behind {
                s
            } else {
                state::clear_parked_word(s)
            };
            let word = state::add_readers_word(base, n);
            WakePlan {
                word,
                handoff: true,
                wake_upgradable: upg_waiters && !state::is_upgradable(s),
            }
        },
    }
}

/// Whether the wake pass's pre-grant is still sound on the word
/// observed under the queue's own lock.  Between a release and its wake
/// pass another thread may have taken the lock — a spinning writer or a
/// recursive reader ignores the parked flag — or cleared the flag; the
/// pre-granted word may then no longer be installed.
pub open spec fn wake_sound(s: u64, q: QueueView) -> bool {
    match q {
        QueueView::Empty => state::parked(s),
        QueueView::FirstWriter { .. } => state::parked(s) && state::exclusive_acquirable(s),
        QueueView::FirstUpgrader { .. } => state::parked(s) && state::upgrade_acquirable(s),
        QueueView::Readers { n, .. } => state::parked(s) && !state::writer(s) && 1 <= n
            && state::shared_count(s) + n <= MAX_READERS,
    }
}

/// One wake-pass step from the word observed under the queue's own
/// lock: the pre-granted plan of [`wake_plan`] where it is still sound
/// — the second component reports that — and otherwise the no-handoff
/// fallback that leaves the word exactly as observed; the selected
/// waiters are then woken normally and re-run their acquisition loops,
/// which is safe on every word.
pub fn wake_step(s: u64, q: QueueView) -> (r: (WakePlan, bool))
    requires
        state::wf(s),
    ensures
        state::wf(r.0.word),
        r.1 == wake_sound(s, q),
        !r.1 ==> r.0.word == s && !r.0.handoff && !r.0.wake_upgradable,
        r.1 ==> state::upg_parked(r.0.word) == state::upg_parked(s) && r.0.wake_upgradable == (
        state::upg_parked(s) && !state::upgradable(r.0.word)),
        r.1 && q is Empty ==> ({
            &&& r.0.word == s - PARKED_BIT
            &&& !state::parked(r.0.word)
            &&& !r.0.handoff
            &&& state::writer(r.0.word) == state::writer(s)
            &&& state::upgradable(r.0.word) == state::upgradable(s)
            &&& state::shared_count(r.0.word) == state::shared_count(s)
        }),
        q matches QueueView::FirstWriter { more } ==> (r.1 ==> ({
            &&& state::writer(r.0.word)
            &&& !state::upgradable(r.0.word)
            &&& state::shared_count(r.0.word) == 0
            &&& state::parked(r.0.word) == more
            &&& r.0.handoff
        })),
        q matches QueueView::FirstUpgrader { more } ==> (r.1 ==> ({
            &&& state::writer(r.0.word)
            &&& !state::upgradable(r.0.word)
            &&& state::shared_count(r.0.word) == 0
            &&& state::parked(r.0.word) == more
            &&& r.0.handoff
        })),
        q matches QueueView::Readers { n, writer_behind } ==> (r.1 ==> ({
            &&& !state::writer(r.0.word)
            &&& state::upgradable(r.0.word) == state::upgradable(s)
            &&& state::shared_count(r.0.word) == state::shared_count(s) + n
            &&& state::parked(r.0.word) == writer_behind
            &&& r.0.handoff
        })),
{
    let fallback = WakePlan { word: s, handoff: false, wake_upgradable: false };
    match q {
        QueueView::Empty => {
            if state::is_parked(s) {
                let word = state::clear_parked_word(s);
                let wake_upgradable = state::is_upg_parked(s) && !state::is_upgradable(s);
                (WakePlan { word, handoff: false, wake_upgradable }, true)
            } else {
                (fallback, false)
            }
        },
        QueueView::FirstWriter { .. } => {
            if state::is_parked(s) && !state::is_writer(s) && !state::is_upgradable(s)
                && state::count_of(s) == 0 {
                (wake_plan(s, q), true)
            } else {
                (fallback, false)
            }
        },
        QueueView::FirstUpgrader { .. } => {
            if state::is_parked(s) && state::is_upgradable(s) && !state::is_writer(s)
                && state::count_of(s) == 1 {
                (wake_plan(s, q), true)
            } else {
                (fallback, false)
            }
        },
        QueueView::Readers { n, .. } => {
            if state::is_parked(s) && !state::is_writer(s) && 1 <= n && n <= MAX_READERS
                && state::count_of(s) <= MAX_READERS - n {
                (wake_plan(s, q), true)
            } else {
                (fallback, false)
            }
        },
    }
}

/// Bookkeeping after a normal, no-handoff wake from the
/// shared/exclusive queue — the unfair release of a lock with a waiting
/// writer, which lets the releaser or anyone else reacquire first: the
/// woken waiter re-runs its loop, and the queue's parked flag stays
/// raised exactly when waiters remain.
pub fn wake_bookkeeping(s: u64, more: bool) -> (n: u64)
    requires
        state::parked(s),
    ensures
        state::parked(n) == more,
        state::upg_parked(n) == state::upg_parked(s),
        state::writer(n) == state::writer(s),
        state::upgradable(n) == state::upgradable(s),
        state::shared_count(n) == state::shared_count(s),
        state::wf(n) == state::wf(s),
{
    if more {
        s
    } else {
        state::clear_parked_word(s)
    }
}

/// Which waiters a wake pass on the shared/exclusive queue may grant.
#[derive(Clone, Copy, PartialEq, Eq, Structural, Debug)]
pub enum WakeMode {
    /// Any waiter at the head: after an exclusive, last-shared or
    /// upgradable release that left no holder.
    General,
    /// Only readers, stopping at the first waiter that wants the lock
    /// exclusively: after a downgrade, whose holder keeps a shared
    /// hold, so no writer may interpose.
    ReadersOnly,
    /// Only the waiting upgrader, walking past waiters parked ahead of
    /// it: when the last plain reader leaves and the upgrader's own
    /// slot is the only hold, nobody but the upgrader can be granted.
    UpgraderOnly,
}

/// What a wake pass does with one queued waiter.
#[derive(Clone, Copy, PartialEq, Eq, Structural, Debug)]
pub enum WaiterDecision {
    /// Wake this waiter; it is counted toward the pre-grant.
    Take,
    /// Leave this waiter parked and look at the one behind it.
    Leave,
    /// Leave this waiter and every one behind it parked.
    Halt,
}

/// Selects the waiters of one wake pass, walking the queue head to
/// tail; `first` is the token of the first waiter taken, if any.  The
/// general pass takes the head waiter whatever it wants, and extends
/// only a run of readers; the readers pass stops at the first
/// exclusive-minded waiter; the upgrader pass walks past the waiters
/// parked ahead of the upgrading holder — none of them could be
/// granted while it keeps its hold — and takes only it.
pub fn select_waiter(mode: WakeMode, first: Option<u64>, token: u64) -> (r: WaiterDecision)
    ensures
        r == (match mode {
            WakeMode::General => if first is None {
                WaiterDecision::Take
            } else if first == Some(TOKEN_SHARED) && token == TOKEN_SHARED {
                WaiterDecision::Take
            } else {
                WaiterDecision::Halt
            },
            WakeMode::ReadersOnly => if token == TOKEN_SHARED {
                WaiterDecision::Take
            } else {
                WaiterDecision::Halt
            },
            WakeMode::UpgraderOnly => if first is Some {
                WaiterDecision::Halt
            } else if token == TOKEN_UPGRADING {
                WaiterDecision::Take
            } else {
                WaiterDecision::Leave
            },
        }),
{
    match mode {
        WakeMode::General => {
            match first {
                None => WaiterDecision::Take,
                Some(f) => {
                    if f == TOKEN_SHARED && token == TOKEN_SHARED {
                        WaiterDecision::Take
                    } else {
                        WaiterDecision::Halt
                    }
                },
            }
        },
        WakeMode::ReadersOnly => {
            if token == TOKEN_SHARED {
                WaiterDecision::Take
            } else {
                WaiterDecision::Halt
            }
        },
        WakeMode::UpgraderOnly => {
            if first.is_some() {
                WaiterDecision::Halt
            } else if token == TOKEN_UPGRADING {
                WaiterDecision::Take
            } else {
                WaiterDecision::Leave
            }
        },
    }
}

/// Bookkeeping after waking from the upgradable queue: its parked flag
/// stays raised exactly when waiters remain there.
pub fn upg_queue_update(s: u64, more: bool) -> (n: u64)
    requires
        state::upg_parked(s),
    ensures
        state::upg_parked(n) == more,
        state::parked(n) == state::parked(s),
        state::writer(n) == state::writer(s),
        state::upgradable(n) == state::upgradable(s),
        state::shared_count(n) == state::shared_count(s),
        state::wf(n) == state::wf(s),
{
    if more {
        s
    } else {
        state::clear_upg_parked_word(s)
    }
}

/// Cleanup after a timed wait on the shared/exclusive key gave up: once
/// the waiter has removed itself, a now-empty queue must not leave its
/// parked flag raised.
pub fn timeout_cleanup(s: u64, queue_now_empty: bool) -> (r: Option<u64>)
    ensures
        r is Some <==> (queue_now_empty && state::parked(s)),
        r matches Some(n) ==> n == s - PARKED_BIT && !state::parked(n) && state::wf(n) == state::wf(
            s,
        ),
{
    if queue_now_empty && state::is_parked(s) {
        Some(state::clear_parked_word(s))
    } else {
        None
    }
}

/// Cleanup after a timed wait on the upgradable key gave up.
pub fn timeout_cleanup_upgradable(s: u64, queue_now_empty: bool) -> (r: Option<u64>)
    ensures
        r is Some <==> (queue_now_empty && state::upg_parked(s)),
        r matches Some(n) ==> n == s - UPGRADABLE_PARKED_BIT && !state::upg_parked(n) && state::wf(
            n,
        ) == state::wf(s),
{
    if queue_now_empty && state::is_upg_parked(s) {
        Some(state::clear_upg_parked_word(s))
    } else {
        None
    }
}

} // verus!
