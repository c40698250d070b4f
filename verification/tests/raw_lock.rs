//! The raw lock driven through acquire/release sequences.

use rwlock_core::raw::RawRwLock;
use rwlock_core::state::{ONE_READER, UPGRADABLE_BIT, WRITER_BIT};

#[test]
fn smoke() {
    let mut l = RawRwLock::new();
    assert!(l.try_lock_shared(false));
    l.unlock_shared();
    assert!(l.try_lock_exclusive());
    l.unlock_exclusive();
    assert!(l.try_lock_upgradable());
    l.unlock_upgradable();
    // Two overlapping shared holds.
    assert!(l.try_lock_shared(false));
    assert!(l.try_lock_shared(false));
    l.unlock_shared();
    l.unlock_shared();
    // A shared hold and an upgradable hold together.
    assert!(l.try_lock_shared(false));
    assert!(l.try_lock_upgradable());
    l.unlock_shared();
    l.unlock_upgradable();
    assert!(l.try_lock_exclusive());
    l.unlock_exclusive();
    assert_eq!(l.state_word(), 0);
}

#[test]
fn try_read_against_each_holder() {
    let mut l = RawRwLock::new();

    assert!(l.try_lock_shared(false));
    assert!(
        l.try_lock_shared(false),
        "try_read should succeed while read_guard is in scope"
    );
    l.unlock_shared();
    l.unlock_shared();

    assert!(l.try_lock_upgradable());
    assert!(
        l.try_lock_shared(false),
        "try_read should succeed while upgrade_guard is in scope"
    );
    l.unlock_shared();
    l.unlock_upgradable();

    assert!(l.try_lock_exclusive());
    assert!(
        !l.try_lock_shared(false),
        "try_read should fail while write_guard is in scope"
    );
    l.unlock_exclusive();
    assert_eq!(l.state_word(), 0);
}

#[test]
fn try_write_against_each_holder() {
    let mut l = RawRwLock::new();

    assert!(l.try_lock_shared(false));
    assert!(
        !l.try_lock_exclusive(),
        "try_write should fail while read_guard is in scope"
    );
    l.unlock_shared();

    assert!(l.try_lock_upgradable());
    assert!(
        !l.try_lock_exclusive(),
        "try_write should fail while upgrade_guard is in scope"
    );
    l.unlock_upgradable();

    assert!(l.try_lock_exclusive());
    assert!(
        !l.try_lock_exclusive(),
        "try_write should fail while write_guard is in scope"
    );
    l.unlock_exclusive();
    assert_eq!(l.state_word(), 0);
}

#[test]
fn try_upgradable_against_each_holder() {
    let mut l = RawRwLock::new();

    assert!(l.try_lock_shared(false));
    assert!(
        l.try_lock_upgradable(),
        "try_upgradable_read should succeed while read_guard is in scope"
    );
    l.unlock_upgradable();
    l.unlock_shared();

    assert!(l.try_lock_upgradable());
    assert!(
        !l.try_lock_upgradable(),
        "try_upgradable_read should fail while upgrade_guard is in scope"
    );
    l.unlock_upgradable();

    assert!(l.try_lock_exclusive());
    assert!(
        !l.try_lock_upgradable(),
        "try_upgradable should fail while write_guard is in scope"
    );
    l.unlock_exclusive();
    assert_eq!(l.state_word(), 0);
}

#[test]
fn try_upgrade_races_a_reader() {
    let mut l = RawRwLock::new();
    assert!(l.try_lock_upgradable());
    assert!(l.try_lock_shared(false));
    // With a shared reader present the upgrade is refused and the
    // upgradable hold is kept.
    assert!(!l.try_upgradable_to_exclusive());
    assert_eq!(l.state_word(), UPGRADABLE_BIT + 2 * ONE_READER);
    // Once the reader releases, the upgrade is granted.
    l.unlock_shared();
    assert!(l.try_upgradable_to_exclusive());
    assert_eq!(l.state_word(), WRITER_BIT);
    l.unlock_exclusive();
    assert_eq!(l.state_word(), 0);
}

#[test]
fn downgrade_leaves_one_reader() {
    let mut l = RawRwLock::new();
    assert!(l.try_lock_exclusive());
    l.exclusive_to_shared();
    assert_eq!(l.state_word(), ONE_READER);
    // Another reader joins the downgraded holder; a writer cannot.
    assert!(l.try_lock_shared(false));
    assert!(!l.try_lock_exclusive());
    l.unlock_shared();
    l.unlock_shared();
    assert_eq!(l.state_word(), 0);
}

#[test]
fn upgradable_downgrade_keeps_the_reader_slot() {
    let mut l = RawRwLock::new();
    assert!(l.try_lock_upgradable());
    l.upgradable_to_shared();
    assert_eq!(l.state_word(), ONE_READER);
    // The upgradable slot is free again while the shared hold remains.
    assert!(l.try_lock_upgradable());
    l.unlock_upgradable();
    l.unlock_shared();
    assert_eq!(l.state_word(), 0);
}

#[test]
fn is_locked_reports_any_holder() {
    let mut l = RawRwLock::new();
    assert!(!l.is_locked());
    assert!(l.try_lock_shared(false));
    assert!(l.is_locked());
    l.unlock_shared();
    assert!(l.try_lock_exclusive());
    assert!(l.is_locked());
    l.unlock_exclusive();
    assert!(!l.is_locked());
}

#[test]
fn frob() {
    // A pseudo-random mix of exclusive and shared cycles, an exclusive
    // one roughly every tenth turn; the lock ends quiescent.
    let mut l = RawRwLock::new();
    let mut rng: u32 = 0x9E37_79B9;
    for _ in 0..10 {
        for _ in 0..1000 {
            rng = rwlock_core::fairness::xorshift(rng);
            if rng % 10 == 0 {
                assert!(l.try_lock_exclusive());
                l.unlock_exclusive();
            } else {
                assert!(l.try_lock_shared(false));
                l.unlock_shared();
            }
        }
    }
    assert_eq!(l.state_word(), 0);
}
