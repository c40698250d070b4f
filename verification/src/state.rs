//! The lock's state word and its transitions.
//!
//! The whole lock state lives in one 64-bit word.  Least-significant bits
//! first: bit 0 flags parked shared/exclusive waiters, bit 1 flags parked
//! upgradable waiters, bit 2 marks an exclusive holder, bit 3 marks an
//! upgradable holder, and the remaining bits count the shared holders
//! (an upgradable holder is counted once among them).
//!
//! Each transition below is a pure function on the word with an exact
//! contract: the condition under which it applies, the word it produces,
//! and the effect on every field.  The well-formedness predicate [`wf`]
//! captures the lock invariant; every transition that starts from a
//! well-formed word ends in one, so by induction from the unlocked word
//! (zero) the invariant holds at every observable moment.
//!
//! When the shared count would no longer fit in its bits, acquisition
//! fails: a try-acquire reports failure and a blocking acquire retries
//! after other readers depart.

use vstd::prelude::*;

verus! {

use vstd::arithmetic::div_mod::lemma_fundamental_div_mod;
use vstd::arithmetic::div_mod::lemma_fundamental_div_mod_converse;
use vstd::arithmetic::div_mod::lemma_div_denominator;
use vstd::arithmetic::div_mod::lemma_div_pos_is_pos;
use vstd::arithmetic::div_mod::lemma_mod_bound;

/// One or more shared or exclusive waiters are parked.
pub const PARKED_BIT: u64 = 1;
/// One or more upgradable waiters are parked.
pub const UPGRADABLE_PARKED_BIT: u64 = 2;
/// An exclusive holder is present.
pub const WRITER_BIT: u64 = 4;
/// An upgradable holder is present.
pub const UPGRADABLE_BIT: u64 = 8;
/// The shared count occupies the bits above the four flags.
pub const ONE_READER: u64 = 16;
/// The largest shared count the word can record; an acquisition demands
/// room strictly below it.
pub const MAX_READERS: u64 = 0x0FFF_FFFF_FFFF_FFFF;

/// The parked flag of a word, as 0 or 1.
pub open spec fn p_of(s: u64) -> int {
    (s as int) % 2
}

/// The upgradable-parked flag of a word, as 0 or 1.
pub open spec fn q_of(s: u64) -> int {
    ((s as int) / 2) % 2
}

/// The exclusive-holder flag of a word, as 0 or 1.
pub open spec fn w_of(s: u64) -> int {
    ((s as int) / 4) % 2
}

/// The upgradable-holder flag of a word, as 0 or 1.
pub open spec fn u_of(s: u64) -> int {
    ((s as int) / 8) % 2
}

/// The number of shared holders recorded in a word.
pub open spec fn shared_count(s: u64) -> int {
    (s as int) / 16
}

/// Whether shared/exclusive waiters are flagged as parked.
pub open spec fn parked(s: u64) -> bool {
    p_of(s) == 1
}

/// Whether upgradable waiters are flagged as parked.
pub open spec fn upg_parked(s: u64) -> bool {
    q_of(s) == 1
}

/// Whether an exclusive holder is present.
pub open spec fn writer(s: u64) -> bool {
    w_of(s) == 1
}

/// Whether an upgradable holder is present.
pub open spec fn upgradable(s: u64) -> bool {
    u_of(s) == 1
}

/// The word that the given fields pack into.
pub open spec fn word_of(p: int, q: int, w: int, u: int, c: int) -> int {
    p + 2 * q + 4 * w + 8 * u + 16 * c
}

/// The lock invariant over the state word: an exclusive holder excludes
/// shared holders, an exclusive holder excludes an upgradable holder, and
/// an upgradable holder is itself counted among the shared holders.
pub open spec fn wf(s: u64) -> bool {
    &&& !(writer(s) && shared_count(s) > 0)
    &&& !(writer(s) && upgradable(s))
    &&& (upgradable(s) ==> shared_count(s) >= 1)
}

/// Unpacking: every word is the packing of its own fields, and each field
/// lies in its range.
pub proof fn lemma_unpack(s: u64)
    ensures
        s as int == word_of(p_of(s), q_of(s), w_of(s), u_of(s), shared_count(s)),
        0 <= p_of(s) < 2,
        0 <= q_of(s) < 2,
        0 <= w_of(s) < 2,
        0 <= u_of(s) < 2,
        0 <= shared_count(s) <= MAX_READERS,
{
    let si = s as int;
    lemma_div_pos_is_pos(si, 2);
    lemma_div_pos_is_pos(si, 4);
    lemma_div_pos_is_pos(si, 8);
    lemma_div_pos_is_pos(si, 16);
    lemma_mod_bound(si, 2);
    lemma_mod_bound(si / 2, 2);
    lemma_mod_bound(si / 4, 2);
    lemma_mod_bound(si / 8, 2);
    lemma_fundamental_div_mod(si, 2);
    lemma_fundamental_div_mod(si / 2, 2);
    lemma_fundamental_div_mod(si / 4, 2);
    lemma_fundamental_div_mod(si / 8, 2);
    lemma_div_denominator(si, 2, 2);
    lemma_div_denominator(si, 4, 2);
    lemma_div_denominator(si, 8, 2);
    assert(si / 16 <= MAX_READERS) by {
        if si / 16 > MAX_READERS {
            assert(si >= 16 * (si / 16)) by {
                lemma_mod_bound(si, 16);
                lemma_fundamental_div_mod(si, 16);
            }
        }
    }
}

/// Packing: fields in range pack into a word in range, and unpacking that
/// word gives the fields back.
pub proof fn lemma_pack(p: int, q: int, w: int, u: int, c: int)
    requires
        0 <= p < 2,
        0 <= q < 2,
        0 <= w < 2,
        0 <= u < 2,
        0 <= c <= MAX_READERS,
    ensures
        0 <= word_of(p, q, w, u, c) <= u64::MAX,
        p_of(word_of(p, q, w, u, c) as u64) == p,
        q_of(word_of(p, q, w, u, c) as u64) == q,
        w_of(word_of(p, q, w, u, c) as u64) == w,
        u_of(word_of(p, q, w, u, c) as u64) == u,
        shared_count(word_of(p, q, w, u, c) as u64) == c,
{
    let v = word_of(p, q, w, u, c);
    assert(v <= 15 + 16 * (MAX_READERS as int));
    lemma_fundamental_div_mod_converse(v, 2, q + 2 * w + 4 * u + 8 * c, p);
    lemma_fundamental_div_mod_converse(v, 4, w + 2 * u + 4 * c, p + 2 * q);
    lemma_fundamental_div_mod_converse(v, 8, u + 2 * c, p + 2 * q + 4 * w);
    lemma_fundamental_div_mod_converse(v, 16, c, p + 2 * q + 4 * w + 8 * u);
    lemma_fundamental_div_mod_converse(v / 2, 2, w + 2 * u + 4 * c, q);
    lemma_fundamental_div_mod_converse(v / 4, 2, u + 2 * c, w);
    lemma_fundamental_div_mod_converse(v / 8, 2, c, u);
}

/// Two words with the same fields are the same word.
pub proof fn lemma_fields_determine_word(a: u64, b: u64)
    requires
        p_of(a) == p_of(b),
        q_of(a) == q_of(b),
        w_of(a) == w_of(b),
        u_of(a) == u_of(b),
        shared_count(a) == shared_count(b),
    ensures
        a == b,
{
    lemma_unpack(a);
    lemma_unpack(b);
}

/// Reads the parked flag.
pub fn is_parked(s: u64) -> (b: bool)
    ensures
        b == parked(s),
{
    s % 2 == 1
}

/// Reads the upgradable-parked flag.
pub fn is_upg_parked(s: u64) -> (b: bool)
    ensures
        b == upg_parked(s),
{
    (s / 2) % 2 == 1
}

/// Reads the exclusive-holder flag.
pub fn is_writer(s: u64) -> (b: bool)
    ensures
        b == writer(s),
{
    (s / 4) % 2 == 1
}

/// Reads the upgradable-holder flag.
pub fn is_upgradable(s: u64) -> (b: bool)
    ensures
        b == upgradable(s),
{
    (s / 8) % 2 == 1
}

/// Reads the shared count.
pub fn count_of(s: u64) -> (c: u64)
    ensures
        c == shared_count(s),
{
    s / 16
}

/// A shared acquisition may proceed: no exclusive holder, the shared
/// count still has room, and — unless the caller asked for the recursive
/// mode — no shared/exclusive waiter is parked.  The parked gate is the
/// task-fair policy: new readers yield to a queued writer.
pub open spec fn shared_acquirable(s: u64, recursive: bool) -> bool {
    &&& !writer(s)
    &&& (recursive || !parked(s))
    &&& shared_count(s) < MAX_READERS
}

/// The fast exclusive acquisition demands a fully quiescent lock: the
/// whole word is zero, queue-control bits included.
pub open spec fn exclusive_fast_acquirable(s: u64) -> bool {
    s == 0
}

/// A woken or spinning writer may take the lock as soon as no holder of
/// any kind remains; the queue-control bits are kept as they are.
pub open spec fn exclusive_acquirable(s: u64) -> bool {
    &&& !writer(s)
    &&& !upgradable(s)
    &&& shared_count(s) == 0
}

/// An upgradable acquisition may proceed: no exclusive holder, no other
/// upgradable holder, no parked upgradable waiter, and room in the count.
pub open spec fn upgradable_acquirable(s: u64) -> bool {
    &&& !writer(s)
    &&& !upgradable(s)
    &&& !upg_parked(s)
    &&& shared_count(s) < MAX_READERS
}

/// An upgrade may complete: the caller holds upgradable and its own
/// reader slot is the only one left.
pub open spec fn upgrade_acquirable(s: u64) -> bool {
    &&& upgradable(s)
    &&& !writer(s)
    &&& shared_count(s) == 1
}

/// A plain shared holder (beyond any upgradable holder) is present, so a
/// shared release is legal.
pub open spec fn held_shared(s: u64) -> bool {
    shared_count(s) >= if upgradable(s) { 2int } else { 1int }
}

/// The word with one more shared holder.
pub open spec fn with_reader(s: u64) -> u64 {
    (s + ONE_READER) as u64
}

/// The word with one shared holder fewer.
pub open spec fn without_reader(s: u64) -> u64 {
    (s - ONE_READER) as u64
}

/// The word with the exclusive bit raised.
pub open spec fn with_writer(s: u64) -> u64 {
    (s + WRITER_BIT) as u64
}

/// The word with the exclusive bit cleared.
pub open spec fn without_writer(s: u64) -> u64 {
    (s - WRITER_BIT) as u64
}

/// The word after an upgradable acquisition: the upgradable bit raised
/// and one more shared holder.
pub open spec fn with_upgradable(s: u64) -> u64 {
    (s + UPGRADABLE_BIT + ONE_READER) as u64
}

/// The word after an upgradable release: the upgradable bit cleared and
/// one shared holder fewer.
pub open spec fn without_upgradable(s: u64) -> u64 {
    (s - UPGRADABLE_BIT - ONE_READER) as u64
}

/// The word after a downgrade: the exclusive bit becomes one reader,
/// queue-control bits untouched.
pub open spec fn downgraded(s: u64) -> u64 {
    (s - WRITER_BIT + ONE_READER) as u64
}

/// The word after an upgradable holder downgrades to plain shared: only
/// the upgradable bit is cleared; its reader slot remains counted.
pub open spec fn downgraded_upgradable(s: u64) -> u64 {
    (s - UPGRADABLE_BIT) as u64
}

/// The word after an upgrade: the upgradable bit and its reader slot
/// become the exclusive bit, queue-control bits untouched.
pub open spec fn upgraded(s: u64) -> u64 {
    (s - UPGRADABLE_BIT - ONE_READER + WRITER_BIT) as u64
}

/// Attempts the shared fast path.  Succeeds exactly when a shared
/// acquisition may proceed, and then yields the word with one more
/// shared holder; every other field is untouched.
pub fn shared_fast(s: u64, recursive: bool) -> (r: Option<u64>)
    ensures
        r is Some <==> shared_acquirable(s, recursive),
        r matches Some(n) ==> ({
            &&& n == with_reader(s)
            &&& !writer(n)
            &&& upgradable(n) == upgradable(s)
            &&& parked(n) == parked(s)
            &&& upg_parked(n) == upg_parked(s)
            &&& shared_count(n) == shared_count(s) + 1
            &&& (wf(s) ==> wf(n))
        }),
{
    proof {
        lemma_unpack(s);
    }
    if !is_writer(s) && (recursive || !is_parked(s)) && count_of(s) < MAX_READERS {
        let n = s + ONE_READER;
        proof {
            lemma_pack(p_of(s), q_of(s), 0, u_of(s), shared_count(s) + 1);
        }
        Some(n)
    } else {
        None
    }
}

/// Attempts the exclusive fast path.  Succeeds exactly on the fully
/// quiescent word, and then yields the word with only the exclusive bit.
pub fn exclusive_fast(s: u64) -> (r: Option<u64>)
    ensures
        r is Some <==> exclusive_fast_acquirable(s),
        r matches Some(n) ==> ({
            &&& n == WRITER_BIT
            &&& writer(n)
            &&& !upgradable(n)
            &&& !parked(n)
            &&& !upg_parked(n)
            &&& shared_count(n) == 0
            &&& wf(n)
        }),
{
    if s == 0 {
        proof {
            lemma_pack(0, 0, 1, 0, 0);
        }
        Some(WRITER_BIT)
    } else {
        None
    }
}

/// Attempts the exclusive acquisition a woken or spinning writer
/// retries with: it keeps the queue-control bits and succeeds exactly
/// when no holder remains.
pub fn exclusive_retry(s: u64) -> (r: Option<u64>)
    ensures
        r is Some <==> exclusive_acquirable(s),
        r matches Some(n) ==> ({
            &&& n == with_writer(s)
            &&& writer(n)
            &&& !upgradable(n)
            &&& parked(n) == parked(s)
            &&& upg_parked(n) == upg_parked(s)
            &&& shared_count(n) == 0
            &&& wf(n)
        }),
{
    proof {
        lemma_unpack(s);
    }
    if !is_writer(s) && !is_upgradable(s) && count_of(s) == 0 {
        let n = s + WRITER_BIT;
        proof {
            lemma_pack(p_of(s), q_of(s), 1, 0, 0);
        }
        Some(n)
    } else {
        None
    }
}

/// Attempts the upgradable fast path.  Succeeds exactly when an
/// upgradable acquisition may proceed, and then raises the upgradable
/// bit and counts its holder as one reader.
pub fn upgradable_fast(s: u64) -> (r: Option<u64>)
    ensures
        r is Some <==> upgradable_acquirable(s),
        r matches Some(n) ==> ({
            &&& n == with_upgradable(s)
            &&& !writer(n)
            &&& upgradable(n)
            &&& parked(n) == parked(s)
            &&& !upg_parked(n)
            &&& shared_count(n) == shared_count(s) + 1
            &&& (wf(s) ==> wf(n))
        }),
{
    proof {
        lemma_unpack(s);
    }
    if !is_writer(s) && !is_upgradable(s) && !is_upg_parked(s) && count_of(s) < MAX_READERS {
        let n = s + (UPGRADABLE_BIT + ONE_READER);
        proof {
            lemma_pack(p_of(s), 0, 0, 1, shared_count(s) + 1);
        }
        Some(n)
    } else {
        None
    }
}

/// Attempts the non-blocking upgrade.  It succeeds exactly on the word
/// that holds one upgradable holder and nothing else — queue-control
/// bits included, so it can never overtake a parked waiter — and then
/// yields the bare exclusive word.
pub fn upgrade_fast(s: u64) -> (r: Option<u64>)
    ensures
        r is Some <==> s == UPGRADABLE_BIT + ONE_READER,
        r matches Some(n) ==> ({
            &&& n == WRITER_BIT
            &&& writer(n)
            &&& !upgradable(n)
            &&& !parked(n)
            &&& !upg_parked(n)
            &&& shared_count(n) == 0
            &&& wf(n)
        }),
{
    if s == UPGRADABLE_BIT + ONE_READER {
        proof {
            lemma_pack(0, 0, 1, 0, 0);
        }
        Some(WRITER_BIT)
    } else {
        None
    }
}

/// Attempts the upgrade a waiting upgrader retries with: it keeps the
/// queue-control bits and succeeds exactly when its own reader slot is
/// the only one left.
pub fn upgrade_retry(s: u64) -> (r: Option<u64>)
    ensures
        r is Some <==> upgrade_acquirable(s),
        r matches Some(n) ==> ({
            &&& n == upgraded(s)
            &&& writer(n)
            &&& !upgradable(n)
            &&& parked(n) == parked(s)
            &&& upg_parked(n) == upg_parked(s)
            &&& shared_count(n) == 0
            &&& wf(n)
        }),
{
    proof {
        lemma_unpack(s);
    }
    if is_upgradable(s) && !is_writer(s) && count_of(s) == 1 {
        let n = s - (UPGRADABLE_BIT + ONE_READER) + WRITER_BIT;
        proof {
            lemma_pack(p_of(s), q_of(s), 1, 0, 0);
        }
        Some(n)
    } else {
        None
    }
}

/// Releases one shared holder: the count drops by one and nothing else
/// moves.
pub fn unlock_shared_word(s: u64) -> (n: u64)
    requires
        wf(s),
        held_shared(s),
    ensures
        n == without_reader(s),
        !writer(n),
        upgradable(n) == upgradable(s),
        parked(n) == parked(s),
        upg_parked(n) == upg_parked(s),
        shared_count(n) == shared_count(s) - 1,
        wf(n),
{
    proof {
        lemma_unpack(s);
    }
    let n = s - ONE_READER;
    proof {
        lemma_pack(p_of(s), q_of(s), 0, u_of(s), shared_count(s) - 1);
    }
    n
}

/// Releases the exclusive holder: the exclusive bit is cleared and
/// nothing else moves.
pub fn unlock_exclusive_word(s: u64) -> (n: u64)
    requires
        wf(s),
        writer(s),
    ensures
        n == without_writer(s),
        !writer(n),
        !upgradable(n),
        parked(n) == parked(s),
        upg_parked(n) == upg_parked(s),
        shared_count(n) == 0,
        wf(n),
{
    proof {
        lemma_unpack(s);
    }
    let n = s - WRITER_BIT;
    proof {
        lemma_pack(p_of(s), q_of(s), 0, 0, 0);
    }
    n
}

/// Releases the upgradable holder: the upgradable bit and its reader
/// slot are cleared and nothing else moves.
pub fn unlock_upgradable_word(s: u64) -> (n: u64)
    requires
        wf(s),
        upgradable(s),
    ensures
        n == without_upgradable(s),
        !writer(n),
        !upgradable(n),
        parked(n) == parked(s),
        upg_parked(n) == upg_parked(s),
        shared_count(n) == shared_count(s) - 1,
        wf(n),
{
    proof {
        lemma_unpack(s);
    }
    let n = s - (UPGRADABLE_BIT + ONE_READER);
    proof {
        lemma_pack(p_of(s), q_of(s), 0, 0, shared_count(s) - 1);
    }
    n
}

/// Downgrades the exclusive holder to a shared holder in one step: the
/// exclusive bit becomes one reader, the queue-control bits stay, so no
/// writer can slip in between.
pub fn downgrade_word(s: u64) -> (n: u64)
    requires
        wf(s),
        writer(s),
    ensures
        n == downgraded(s),
        !writer(n),
        !upgradable(n),
        parked(n) == parked(s),
        upg_parked(n) == upg_parked(s),
        shared_count(n) == 1,
        wf(n),
{
    proof {
        lemma_unpack(s);
    }
    let n = s - WRITER_BIT + ONE_READER;
    proof {
        lemma_pack(p_of(s), q_of(s), 0, 0, 1);
    }
    n
}

/// Downgrades the upgradable holder to a plain shared holder: only the
/// upgradable bit is cleared; its reader slot stays counted, so no
/// writer can slip in between.
pub fn downgrade_upgradable_word(s: u64) -> (n: u64)
    requires
        wf(s),
        upgradable(s),
    ensures
        n == downgraded_upgradable(s),
        !writer(n),
        !upgradable(n),
        parked(n) == parked(s),
        upg_parked(n) == upg_parked(s),
        shared_count(n) == shared_count(s),
        wf(n),
{
    proof {
        lemma_unpack(s);
    }
    let n = s - UPGRADABLE_BIT;
    proof {
        lemma_pack(p_of(s), q_of(s), 0, 0, shared_count(s));
    }
    n
}

/// Raises the parked flag for the shared/exclusive queue.
pub fn set_parked_word(s: u64) -> (n: u64)
    requires
        !parked(s),
    ensures
        parked(n),
        n == s + PARKED_BIT,
        upg_parked(n) == upg_parked(s),
        writer(n) == writer(s),
        upgradable(n) == upgradable(s),
        shared_count(n) == shared_count(s),
        wf(n) == wf(s),
{
    proof {
        lemma_unpack(s);
    }
    let n = s + PARKED_BIT;
    proof {
        lemma_pack(1, q_of(s), w_of(s), u_of(s), shared_count(s));
    }
    n
}

/// Clears the parked flag for the shared/exclusive queue.
pub fn clear_parked_word(s: u64) -> (n: u64)
    requires
        parked(s),
    ensures
        !parked(n),
        n == s - PARKED_BIT,
        upg_parked(n) == upg_parked(s),
        writer(n) == writer(s),
        upgradable(n) == upgradable(s),
        shared_count(n) == shared_count(s),
        wf(n) == wf(s),
{
    proof {
        lemma_unpack(s);
    }
    let n = s - PARKED_BIT;
    proof {
        lemma_pack(0, q_of(s), w_of(s), u_of(s), shared_count(s));
    }
    n
}

/// Raises the parked flag for the upgradable queue.
pub fn set_upg_parked_word(s: u64) -> (n: u64)
    requires
        !upg_parked(s),
    ensures
        upg_parked(n),
        n == s + UPGRADABLE_PARKED_BIT,
        parked(n) == parked(s),
        writer(n) == writer(s),
        upgradable(n) == upgradable(s),
        shared_count(n) == shared_count(s),
        wf(n) == wf(s),
{
    proof {
        lemma_unpack(s);
    }
    let n = s + UPGRADABLE_PARKED_BIT;
    proof {
        lemma_pack(p_of(s), 1, w_of(s), u_of(s), shared_count(s));
    }
    n
}

/// Clears the parked flag for the upgradable queue.
pub fn clear_upg_parked_word(s: u64) -> (n: u64)
    requires
        upg_parked(s),
    ensures
        !upg_parked(n),
        n == s - UPGRADABLE_PARKED_BIT,
        parked(n) == parked(s),
        writer(n) == writer(s),
        upgradable(n) == upgradable(s),
        shared_count(n) == shared_count(s),
        wf(n) == wf(s),
{
    proof {
        lemma_unpack(s);
    }
    let n = s - UPGRADABLE_PARKED_BIT;
    proof {
        lemma_pack(p_of(s), 0, w_of(s), u_of(s), shared_count(s));
    }
    n
}

/// Adds `k` shared holders at once: the pre-grant a releaser performs on
/// behalf of the readers it is about to wake.
pub fn add_readers_word(s: u64, k: u64) -> (n: u64)
    requires
        !writer(s),
        shared_count(s) + k <= MAX_READERS,
    ensures
        n == s + k * ONE_READER,
        !writer(n),
        upgradable(n) == upgradable(s),
        parked(n) == parked(s),
        upg_parked(n) == upg_parked(s),
        shared_count(n) == shared_count(s) + k,
        wf(s) ==> wf(n),
{
    proof {
        lemma_unpack(s);
        lemma_pack(p_of(s), q_of(s), 0, u_of(s), shared_count(s) + k);
    }
    s + k * ONE_READER
}

/// The unlocked word: all fields zero, well formed.  Every lock starts
/// here, and by the transition contracts every reachable word stays well
/// formed.
pub proof fn lemma_unlocked_wf()
    ensures
        wf(0),
        !writer(0u64),
        !upgradable(0u64),
        !parked(0u64),
        !upg_parked(0u64),
        shared_count(0u64) == 0,
{
    lemma_pack(0, 0, 0, 0, 0);
}

/// Mutual exclusion, read off the invariant: a well-formed word never
/// records an exclusive holder and a positive shared count at once.
/// Every transition above preserves well-formedness and the unlocked
/// word is well formed, so this holds at every observable moment.
pub proof fn lemma_mutual_exclusion(s: u64)
    requires
        wf(s),
    ensures
        !(writer(s) && shared_count(s) > 0),
        !(writer(s) && upgradable(s)),
{
}

/// Writer uniqueness: while an exclusive holder is present, no
/// acquisition of any kind can succeed, so a second holder can never be
/// granted alongside it.
pub proof fn lemma_writer_excludes_all(s: u64)
    requires
        wf(s),
        writer(s),
    ensures
        !shared_acquirable(s, false),
        !shared_acquirable(s, true),
        !exclusive_fast_acquirable(s),
        !exclusive_acquirable(s),
        !upgradable_acquirable(s),
        !upgrade_acquirable(s),
{
    lemma_unpack(s);
}

/// Upgradable uniqueness: while an upgradable holder is present, no
/// second upgradable acquisition can succeed, and no exclusive one
/// either — its reader slot keeps every writer out.
pub proof fn lemma_upgradable_excludes(s: u64)
    requires
        wf(s),
        upgradable(s),
    ensures
        !upgradable_acquirable(s),
        !exclusive_fast_acquirable(s),
        !exclusive_acquirable(s),
{
    lemma_unpack(s);
}

/// Release balance: each release undoes exactly its acquisition, so a
/// matched acquire/release pair leaves the word as it found it, and a
/// lock whose holders have all departed is back at the unlocked word.
pub proof fn lemma_release_balances(s: u64, recursive: bool)
    requires
        wf(s),
    ensures
        shared_acquirable(s, recursive) ==> ({
            &&& held_shared(with_reader(s))
            &&& without_reader(with_reader(s)) == s
        }),
        exclusive_acquirable(s) ==> without_writer(with_writer(s)) == s,
        upgradable_acquirable(s) ==> without_upgradable(with_upgradable(s)) == s,
{
    lemma_unpack(s);
    if shared_acquirable(s, recursive) {
        lemma_pack(p_of(s), q_of(s), 0, u_of(s), shared_count(s) + 1);
    }
    if upgradable_acquirable(s) {
        lemma_pack(p_of(s), 0, 0, 1, shared_count(s) + 1);
    }
}

/// The full cycle on an idle lock: acquiring and releasing in any one
/// mode returns the word to zero.
pub proof fn lemma_idle_cycle()
    ensures
        without_reader(with_reader(0u64)) == 0u64,
        without_writer(WRITER_BIT) == 0u64,
        without_upgradable(with_upgradable(0u64)) == 0u64,
{
}

/// A downgrade is an atomic release-then-shared-acquire: its result is
/// exactly the word of a shared acquisition performed on the released
/// word, and because the two happen in one step — and the released word
/// carries a positive count at once — no writer can interpose: the
/// downgraded word admits no exclusive acquisition.
pub proof fn lemma_downgrade_is_release_then_read(s: u64)
    requires
        wf(s),
        writer(s),
    ensures
        shared_acquirable(without_writer(s), true),
        downgraded(s) == with_reader(without_writer(s)),
        !exclusive_acquirable(downgraded(s)),
        !exclusive_fast_acquirable(downgraded(s)),
{
    lemma_unpack(s);
    lemma_pack(p_of(s), q_of(s), 0, 0, 0);
    lemma_pack(p_of(s), q_of(s), 0, 0, 1);
}

/// An upgrade is an atomic release-then-exclusive-acquire: once the
/// upgrader's reader slot is the last, its result is exactly the word of
/// an exclusive acquisition performed on the released word; and while
/// the upgrader waits it keeps the upgradable bit, so no second upgrader
/// can interpose.
pub proof fn lemma_upgrade_is_release_then_write(s: u64)
    requires
        wf(s),
        upgrade_acquirable(s),
    ensures
        exclusive_acquirable(without_upgradable(s)),
        upgraded(s) == with_writer(without_upgradable(s)),
        !upgradable_acquirable(s),
{
    lemma_unpack(s);
    lemma_pack(p_of(s), q_of(s), 0, 0, 0);
}

/// No poisoning: however a holder's scope ended — normally or by
/// unwind — its release leaves a word from which the lock is granted
/// again: a released exclusive hold admits both a new exclusive and a
/// new shared acquisition, and a fully released lock admits every mode.
pub proof fn lemma_no_poisoning(s: u64)
    requires
        wf(s),
    ensures
        writer(s) ==> exclusive_acquirable(without_writer(s)),
        writer(s) ==> shared_acquirable(without_writer(s), true),
        upgradable(s) && shared_count(s) == 1 ==> exclusive_acquirable(without_upgradable(s)),
{
    lemma_unpack(s);
    if writer(s) {
        lemma_pack(p_of(s), q_of(s), 0, 0, 0);
    }
    if upgradable(s) && shared_count(s) == 1 {
        lemma_pack(p_of(s), q_of(s), 0, 0, 0);
    }
}

/// The exact law of the non-recursive try-read: it is granted precisely
/// when no exclusive holder is present, no shared/exclusive waiter is
/// parked, and the shared count has room.
pub proof fn lemma_try_read_exact(s: u64)
    ensures
        shared_acquirable(s, false) <==> (!writer(s) && !parked(s) && shared_count(s)
            < MAX_READERS),
{
}

} // verus!
