//! The word-level transitions on concrete state words.

use rwlock_core::state::{
    add_readers_word, clear_parked_word, clear_upg_parked_word, count_of, downgrade_upgradable_word,
    downgrade_word, exclusive_fast, exclusive_retry, is_parked, is_upg_parked, is_upgradable,
    is_writer, set_parked_word, set_upg_parked_word, shared_fast, unlock_exclusive_word,
    unlock_shared_word, unlock_upgradable_word, upgradable_fast, upgrade_fast, upgrade_retry,
    MAX_READERS, ONE_READER, PARKED_BIT, UPGRADABLE_BIT, UPGRADABLE_PARKED_BIT, WRITER_BIT,
};

#[test]
fn field_readers_on_concrete_words() {
    assert!(!is_parked(0));
    assert!(!is_upg_parked(0));
    assert!(!is_writer(0));
    assert!(!is_upgradable(0));
    assert_eq!(count_of(0), 0);

    let s = PARKED_BIT + UPGRADABLE_PARKED_BIT + UPGRADABLE_BIT + 3 * ONE_READER;
    assert!(is_parked(s));
    assert!(is_upg_parked(s));
    assert!(!is_writer(s));
    assert!(is_upgradable(s));
    assert_eq!(count_of(s), 3);

    assert!(is_writer(WRITER_BIT));
    assert_eq!(count_of(WRITER_BIT), 0);
}

#[test]
fn shared_fast_grants_and_refuses() {
    assert_eq!(shared_fast(0, false), Some(ONE_READER));
    assert_eq!(shared_fast(ONE_READER, false), Some(2 * ONE_READER));
    assert_eq!(shared_fast(WRITER_BIT, false), None);
    assert_eq!(shared_fast(WRITER_BIT, true), None);
    // An upgradable holder does not block new readers.
    assert_eq!(
        shared_fast(UPGRADABLE_BIT + ONE_READER, false),
        Some(UPGRADABLE_BIT + 2 * ONE_READER)
    );
}

#[test]
fn recursive_read_crosses_a_parked_writer() {
    // A reader holds the lock and a writer has parked: the non-recursive
    // read yields to the writer, the recursive read is granted at once.
    let s = ONE_READER + PARKED_BIT;
    assert_eq!(shared_fast(s, false), None);
    assert_eq!(shared_fast(s, true), Some(s + ONE_READER));
}

#[test]
fn shared_count_overflow_refuses() {
    let full = MAX_READERS * ONE_READER;
    assert_eq!(count_of(full), MAX_READERS);
    assert_eq!(shared_fast(full, false), None);
    assert_eq!(shared_fast(full, true), None);
    assert_eq!(upgradable_fast(full), None);
    assert_eq!(shared_fast(full - ONE_READER, false), Some(full));
}

#[test]
fn exclusive_fast_needs_a_quiescent_word() {
    assert_eq!(exclusive_fast(0), Some(WRITER_BIT));
    assert_eq!(exclusive_fast(PARKED_BIT), None);
    assert_eq!(exclusive_fast(ONE_READER), None);
    assert_eq!(exclusive_fast(UPGRADABLE_BIT + ONE_READER), None);
    assert_eq!(exclusive_fast(WRITER_BIT), None);
}

#[test]
fn exclusive_retry_keeps_queue_bits() {
    let s = PARKED_BIT + UPGRADABLE_PARKED_BIT;
    assert_eq!(exclusive_retry(s), Some(s + WRITER_BIT));
    assert_eq!(exclusive_retry(ONE_READER + PARKED_BIT), None);
    assert_eq!(exclusive_retry(WRITER_BIT), None);
}

#[test]
fn upgradable_fast_excludes_writer_upgrader_and_parked_upgraders() {
    assert_eq!(upgradable_fast(0), Some(UPGRADABLE_BIT + ONE_READER));
    assert_eq!(
        upgradable_fast(ONE_READER),
        Some(UPGRADABLE_BIT + 2 * ONE_READER)
    );
    assert_eq!(upgradable_fast(WRITER_BIT), None);
    assert_eq!(upgradable_fast(UPGRADABLE_BIT + ONE_READER), None);
    assert_eq!(upgradable_fast(UPGRADABLE_PARKED_BIT), None);
    // The shared/exclusive parked flag does not gate upgradable entry.
    assert_eq!(
        upgradable_fast(PARKED_BIT),
        Some(PARKED_BIT + UPGRADABLE_BIT + ONE_READER)
    );
}

#[test]
fn upgrade_fast_needs_the_lone_upgrader() {
    assert_eq!(upgrade_fast(UPGRADABLE_BIT + ONE_READER), Some(WRITER_BIT));
    assert_eq!(upgrade_fast(UPGRADABLE_BIT + 2 * ONE_READER), None);
    assert_eq!(upgrade_fast(UPGRADABLE_BIT + ONE_READER + PARKED_BIT), None);
    assert_eq!(upgrade_fast(0), None);
}

#[test]
fn upgrade_retry_keeps_queue_bits() {
    let s = UPGRADABLE_BIT + ONE_READER + PARKED_BIT;
    assert_eq!(upgrade_retry(s), Some(WRITER_BIT + PARKED_BIT));
    assert_eq!(upgrade_retry(UPGRADABLE_BIT + 2 * ONE_READER), None);
}

#[test]
fn releases_invert_acquisitions() {
    assert_eq!(unlock_shared_word(ONE_READER), 0);
    assert_eq!(unlock_exclusive_word(WRITER_BIT), 0);
    assert_eq!(unlock_upgradable_word(UPGRADABLE_BIT + ONE_READER), 0);
    // A release only removes its own hold.
    assert_eq!(
        unlock_shared_word(UPGRADABLE_BIT + 2 * ONE_READER),
        UPGRADABLE_BIT + ONE_READER
    );
    assert_eq!(
        unlock_exclusive_word(WRITER_BIT + PARKED_BIT),
        PARKED_BIT
    );
}

#[test]
fn downgrades_move_one_hold_atomically() {
    assert_eq!(downgrade_word(WRITER_BIT), ONE_READER);
    assert_eq!(
        downgrade_word(WRITER_BIT + PARKED_BIT),
        ONE_READER + PARKED_BIT
    );
    assert_eq!(
        downgrade_upgradable_word(UPGRADABLE_BIT + ONE_READER),
        ONE_READER
    );
    assert_eq!(
        downgrade_upgradable_word(UPGRADABLE_BIT + 3 * ONE_READER),
        3 * ONE_READER
    );
}

#[test]
fn queue_flag_words() {
    assert_eq!(set_parked_word(0), PARKED_BIT);
    assert_eq!(clear_parked_word(PARKED_BIT), 0);
    assert_eq!(set_upg_parked_word(0), UPGRADABLE_PARKED_BIT);
    assert_eq!(clear_upg_parked_word(UPGRADABLE_PARKED_BIT), 0);
    assert_eq!(
        set_parked_word(WRITER_BIT + UPGRADABLE_PARKED_BIT),
        WRITER_BIT + UPGRADABLE_PARKED_BIT + PARKED_BIT
    );
}

#[test]
fn pre_granting_readers() {
    assert_eq!(add_readers_word(0, 3), 3 * ONE_READER);
    assert_eq!(
        add_readers_word(UPGRADABLE_BIT + ONE_READER + PARKED_BIT, 2),
        UPGRADABLE_BIT + 3 * ONE_READER + PARKED_BIT
    );
}

#[test]
fn downgrade_equals_release_then_shared_acquire() {
    // The downgraded word is exactly the word of a shared acquisition
    // performed on the released word, for every flag combination.
    for extra in [0, PARKED_BIT, UPGRADABLE_PARKED_BIT, PARKED_BIT + UPGRADABLE_PARKED_BIT] {
        let s = WRITER_BIT + extra;
        let released = unlock_exclusive_word(s);
        assert_eq!(downgrade_word(s), shared_fast(released, true).unwrap());
    }
}

#[test]
fn upgrade_equals_release_then_exclusive_acquire() {
    // The upgraded word is exactly the word of an exclusive acquisition
    // performed on the released word, for every flag combination.
    for extra in [0, PARKED_BIT, UPGRADABLE_PARKED_BIT, PARKED_BIT + UPGRADABLE_PARKED_BIT] {
        let s = UPGRADABLE_BIT + ONE_READER + extra;
        let released = unlock_upgradable_word(s);
        assert_eq!(upgrade_retry(s).unwrap(), exclusive_retry(released).unwrap());
    }
}
