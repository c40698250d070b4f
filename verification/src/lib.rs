//! A fair, adaptive reader-writer lock core.
//!
//! The heart of the library is the *state word*: a single machine word that
//! encodes the whole lock state (a count of shared holders, an exclusive
//! bit, an upgradable bit, and two queue-control bits).  Every lock
//! operation is a transition on that word, and every transition here is
//! verified: it preserves the lock invariant (a writer excludes readers,
//! at most one upgradable holder, an upgradable holder counts as a reader)
//! and its success condition is stated exactly.
//!
//! Threads that cannot acquire immediately suspend on an external parking
//! queue.  The queue itself is an outside collaborator; this crate supplies
//! the verified decisions that drive it: when to spin, when to set the
//! queue-control bits, how to validate a park, and how a releaser picks and
//! pre-grants the waiters it wakes.

pub mod fairness;
pub mod lock;
pub mod park;
pub mod protocol;
pub mod raw;
pub mod state;
