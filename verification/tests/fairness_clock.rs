//! The fairness clock: deadline draws and the long-section cap.

use rwlock_core::fairness::{xorshift, FairTimeout, FAIR_INTERVAL_NS, LONG_SECTION_NS};

#[test]
fn xorshift_concrete_step() {
    // 1 -> 1 ^ (1 << 13) = 0x2001; unchanged by the 17-shift; then
    // 0x2001 ^ (0x2001 << 5) = 0x42021.
    assert_eq!(xorshift(1), 0x42021);
    assert_eq!(xorshift(0), 0);
}

#[test]
fn first_release_is_fair_and_redraws_within_the_interval() {
    let mut clock = FairTimeout::new(1);
    let now = 5_000_000;
    assert!(clock.should_unlock_fair(now, now));
    assert_eq!(clock.seed, xorshift(1));
    assert!(clock.deadline_ns >= now);
    assert!(clock.deadline_ns < now + FAIR_INTERVAL_NS);
    assert_eq!(clock.deadline_ns, now + (xorshift(1) as u64) % FAIR_INTERVAL_NS);
}

#[test]
fn short_section_before_the_deadline_stays_unfair() {
    let mut clock = FairTimeout::new(7);
    let now = 1_000;
    assert!(clock.should_unlock_fair(now, now));
    let deadline = clock.deadline_ns;
    let seed = clock.seed;
    // Just before the deadline, with a short section: unfair, nothing
    // redrawn.
    if deadline > now + 1 {
        assert!(!clock.should_unlock_fair(deadline - 1, deadline - 1));
        assert_eq!(clock.deadline_ns, deadline);
        assert_eq!(clock.seed, seed);
    }
    // At the deadline: fair again.
    assert!(clock.should_unlock_fair(deadline, deadline));
}

#[test]
fn long_section_forces_fairness() {
    // The deadline is far off, but the critical section ran a full
    // millisecond: the release is fair regardless.
    let mut clock = FairTimeout::new(3);
    clock.deadline_ns = 10_000_000;
    let acquired = 1_000_000;
    assert!(clock.should_unlock_fair(acquired, acquired + LONG_SECTION_NS));

    // One nanosecond less is not a long section, and the deadline is
    // still off: unfair.
    let mut other = FairTimeout::new(3);
    other.deadline_ns = 10_000_000;
    assert!(!other.should_unlock_fair(acquired, acquired + LONG_SECTION_NS - 1));
}
