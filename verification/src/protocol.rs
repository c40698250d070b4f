//! The protocol as a transition system, and its inductive invariant.
//!
//! Every operation of the lock — acquisitions, releases, the atomic
//! downgrades and upgrades, the queue-flag bookkeeping, and the wake
//! policy's pre-grants — appears here as one [`Transition`] on the
//! state word, with [`enabled`] saying when a thread may perform it and
//! [`apply`] what word it installs.  These are the same words the
//! executable transitions produce; the compare-exchange discipline
//! ensures an operation takes effect only from the exact word it was
//! decided on, so a history of the lock is a trace of enabled
//! transitions.
//!
//! The theorem at the bottom is the lock invariant for all
//! interleavings: along every trace of enabled transitions from the
//! unlocked word — whatever threads performed them, in whatever order
//! they won their exchanges — each reached word is well formed: never
//! an exclusive holder beside a shared holder, never two exclusive
//! holders, at most one upgradable holder.

use vstd::prelude::*;

verus! {

use crate::state::MAX_READERS;
use crate::state::ONE_READER;
use crate::state::PARKED_BIT;
use crate::state::UPGRADABLE_BIT;
use crate::state::UPGRADABLE_PARKED_BIT;
use crate::state::WRITER_BIT;
use crate::state::downgraded;
use crate::state::downgraded_upgradable;
use crate::state::exclusive_acquirable;
use crate::state::exclusive_fast_acquirable;
use crate::state::held_shared;
use crate::state::lemma_pack;
use crate::state::lemma_unpack;
use crate::state::p_of;
use crate::state::parked;
use crate::state::q_of;
use crate::state::shared_acquirable;
use crate::state::shared_count;
use crate::state::u_of;
use crate::state::upg_parked;
use crate::state::upgradable;
use crate::state::upgradable_acquirable;
use crate::state::upgrade_acquirable;
use crate::state::upgraded;
use crate::state::w_of;
use crate::state::wf;
use crate::state::with_reader;
use crate::state::with_upgradable;
use crate::state::with_writer;
use crate::state::without_reader;
use crate::state::without_upgradable;
use crate::state::without_writer;
use crate::state::writer;

/// One atomic step of the protocol on the state word.
pub enum Transition {
    /// A shared acquisition, in the given mode.
    LockShared { recursive: bool },
    /// The exclusive fast path on the quiescent word.
    LockExclusiveFast,
    /// The exclusive acquisition of a woken or spinning writer.
    LockExclusiveRetry,
    /// An upgradable acquisition.
    LockUpgradable,
    /// The upgrade of the lone upgradable holder.
    Upgrade,
    /// A shared release.
    UnlockShared,
    /// The exclusive release.
    UnlockExclusive,
    /// The upgradable release.
    UnlockUpgradable,
    /// The exclusive holder becomes a shared holder.
    Downgrade,
    /// The upgradable holder becomes a plain shared holder.
    DowngradeUpgradable,
    /// A blocked thread raises the shared/exclusive parked flag.
    SetParked,
    /// A wake or timeout path clears the shared/exclusive parked flag.
    ClearParked,
    /// A blocked thread raises the upgradable parked flag.
    SetUpgParked,
    /// A wake or timeout path clears the upgradable parked flag.
    ClearUpgParked,
    /// A releaser pre-grants `n` woken readers and leaves the parked
    /// flag raised exactly when a writer remains queued.
    WakeReaders { n: u64, writer_behind: bool },
    /// A releaser grants the lock to the writer at the head of the
    /// queue directly.
    WakeWriter { more: bool },
    /// The last departing reader completes the waiting upgrader's
    /// upgrade directly.
    WakeUpgrader { more: bool },
}

/// When a thread may perform the transition on the word it observed.
pub open spec fn enabled(t: Transition, s: u64) -> bool {
    match t {
        Transition::LockShared { recursive } => shared_acquirable(s, recursive),
        Transition::LockExclusiveFast => exclusive_fast_acquirable(s),
        Transition::LockExclusiveRetry => exclusive_acquirable(s),
        Transition::LockUpgradable => upgradable_acquirable(s),
        Transition::Upgrade => upgrade_acquirable(s),
        Transition::UnlockShared => held_shared(s),
        Transition::UnlockExclusive => writer(s),
        Transition::UnlockUpgradable => upgradable(s),
        Transition::Downgrade => writer(s),
        Transition::DowngradeUpgradable => upgradable(s),
        Transition::SetParked => !parked(s),
        Transition::ClearParked => parked(s),
        Transition::SetUpgParked => !upg_parked(s),
        Transition::ClearUpgParked => upg_parked(s),
        Transition::WakeReaders { n, .. } => !writer(s) && parked(s) && 1 <= n
            && shared_count(s) + n <= MAX_READERS,
        Transition::WakeWriter { .. } => !writer(s) && parked(s) && shared_count(s) == 0
            && !upgradable(s),
        Transition::WakeUpgrader { .. } => !writer(s) && parked(s) && upgrade_acquirable(s),
    }
}

/// The word the transition installs in place of the observed one.
pub open spec fn apply(t: Transition, s: u64) -> u64 {
    match t {
        Transition::LockShared { .. } => with_reader(s),
        Transition::LockExclusiveFast => WRITER_BIT,
        Transition::LockExclusiveRetry => with_writer(s),
        Transition::LockUpgradable => with_upgradable(s),
        Transition::Upgrade => upgraded(s),
        Transition::UnlockShared => without_reader(s),
        Transition::UnlockExclusive => without_writer(s),
        Transition::UnlockUpgradable => without_upgradable(s),
        Transition::Downgrade => downgraded(s),
        Transition::DowngradeUpgradable => downgraded_upgradable(s),
        Transition::SetParked => (s + PARKED_BIT) as u64,
        Transition::ClearParked => (s - PARKED_BIT) as u64,
        Transition::SetUpgParked => (s + UPGRADABLE_PARKED_BIT) as u64,
        Transition::ClearUpgParked => (s - UPGRADABLE_PARKED_BIT) as u64,
        Transition::WakeReaders { n, writer_behind } => ((if writer_behind {
            s
        } else {
            (s - PARKED_BIT) as u64
        }) + n * ONE_READER) as u64,
        Transition::WakeWriter { more } => ((if more {
            s
        } else {
            (s - PARKED_BIT) as u64
        }) + WRITER_BIT) as u64,
        Transition::WakeUpgrader { more } => ((if more {
            s
        } else {
            (s - PARKED_BIT) as u64
        }) - UPGRADABLE_BIT - ONE_READER + WRITER_BIT) as u64,
    }
}

/// Each single enabled transition preserves the lock invariant.
pub proof fn lemma_step_preserves_wf(t: Transition, s: u64)
    requires
        wf(s),
        enabled(t, s),
    ensures
        wf(apply(t, s)),
{
    lemma_unpack(s);
    match t {
        Transition::LockShared { .. } => {
            lemma_pack(p_of(s), q_of(s), 0, u_of(s), shared_count(s) + 1);
        },
        Transition::LockExclusiveFast => {
            lemma_pack(0, 0, 1, 0, 0);
        },
        Transition::LockExclusiveRetry => {
            lemma_pack(p_of(s), q_of(s), 1, 0, 0);
        },
        Transition::LockUpgradable => {
            lemma_pack(p_of(s), 0, 0, 1, shared_count(s) + 1);
        },
        Transition::Upgrade => {
            lemma_pack(p_of(s), q_of(s), 1, 0, 0);
        },
        Transition::UnlockShared => {
            lemma_pack(p_of(s), q_of(s), 0, u_of(s), shared_count(s) - 1);
        },
        Transition::UnlockExclusive => {
            lemma_pack(p_of(s), q_of(s), 0, 0, 0);
        },
        Transition::UnlockUpgradable => {
            lemma_pack(p_of(s), q_of(s), 0, 0, shared_count(s) - 1);
        },
        Transition::Downgrade => {
            lemma_pack(p_of(s), q_of(s), 0, 0, 1);
        },
        Transition::DowngradeUpgradable => {
            lemma_pack(p_of(s), q_of(s), 0, 0, shared_count(s));
        },
        Transition::SetParked => {
            lemma_pack(1, q_of(s), w_of(s), u_of(s), shared_count(s));
        },
        Transition::ClearParked => {
            lemma_pack(0, q_of(s), w_of(s), u_of(s), shared_count(s));
        },
        Transition::SetUpgParked => {
            lemma_pack(p_of(s), 1, w_of(s), u_of(s), shared_count(s));
        },
        Transition::ClearUpgParked => {
            lemma_pack(p_of(s), 0, w_of(s), u_of(s), shared_count(s));
        },
        Transition::WakeReaders { n, writer_behind } => {
            lemma_pack(
                if writer_behind {
                    1int
                } else {
                    0int
                },
                q_of(s),
                0,
                u_of(s),
                shared_count(s) + n,
            );
        },
        Transition::WakeWriter { more } => {
            lemma_pack(
                if more {
                    1int
                } else {
                    0int
                },
                q_of(s),
                1,
                0,
                0,
            );
        },
        Transition::WakeUpgrader { more } => {
            lemma_pack(
                if more {
                    1int
                } else {
                    0int
                },
                q_of(s),
                1,
                0,
                0,
            );
        },
    }
}

/// The word reached by running a trace of transitions from `s`.
pub open spec fn run(trace: Seq<Transition>, s: u64) -> u64
    decreases trace.len(),
{
    if trace.len() == 0 {
        s
    } else {
        run(trace.drop_first(), apply(trace.first(), s))
    }
}

/// A trace is valid from `s` when each transition is enabled on the
/// word the previous ones reached.
pub open spec fn valid_trace(trace: Seq<Transition>, s: u64) -> bool
    decreases trace.len(),
{
    trace.len() == 0 || (enabled(trace.first(), s) && valid_trace(
        trace.drop_first(),
        apply(trace.first(), s),
    ))
}

/// The inductive invariant: every word along a valid trace from a
/// well-formed word is well formed.
pub proof fn lemma_trace_preserves_wf(trace: Seq<Transition>, s: u64)
    requires
        wf(s),
        valid_trace(trace, s),
    ensures
        wf(run(trace, s)),
    decreases trace.len(),
{
    if trace.len() > 0 {
        lemma_step_preserves_wf(trace.first(), s);
        lemma_trace_preserves_wf(trace.drop_first(), apply(trace.first(), s));
    }
}

/// Mutual exclusion for all interleavings: along every valid trace
/// from the unlocked word, no reached word has an exclusive holder
/// beside a shared holder, or beside an upgradable holder.
pub proof fn lemma_mutual_exclusion_along_traces(trace: Seq<Transition>)
    requires
        valid_trace(trace, 0),
    ensures
        !(writer(run(trace, 0)) && shared_count(run(trace, 0)) > 0),
        !(writer(run(trace, 0)) && upgradable(run(trace, 0))),
{
    crate::state::lemma_unlocked_wf();
    lemma_trace_preserves_wf(trace, 0);
}

} // verus!
