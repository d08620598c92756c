//! Interrupt-safe sharing of mutable state on a single-core system.
//!
//! A non-preemptible foreground loop and asynchronous interrupt handlers
//! share small pieces of state. Every shared value lives behind a
//! critical-section discipline: the foreground obtains an exclusivity
//! token from [`critical::CriticalSectionManager`], hands it to the
//! guarded containers ([`cell::GuardedCell`] for copyable values,
//! [`slot::GuardedSlot`] for values that must not be duplicated), and
//! gives it back when the section ends. A handler's invocation already
//! implies exclusivity with respect to the foreground, so a handler uses
//! the same accessors under the same token discipline.
//!
//! The crate also models the two-tier execution context — a foreground
//! preemptible only by handlers, handlers preemptible only by strictly
//! higher-priority handlers — in [`context`], and the demonstration
//! entities built on the guarded containers: a drained counter
//! ([`counter`]), and a peripheral slot with a companion boolean state
//! ([`system`]). [`race`] keeps the unguarded read-modify-write as a
//! documented negative example.

use vstd::prelude::*;

pub mod cell;
pub mod context;
pub mod counter;
pub mod critical;
pub mod race;
pub mod slot;
pub mod system;

verus! {

/// The programming-error class faults of this domain. All of them are
/// fatal: none is retried and none is surfaced for recovery.
#[derive(Clone, Copy, Debug, PartialEq, Eq, Structural)]
pub enum Fault {
    /// A singleton resource was requested more than once at boot.
    ConfigurationError,
    /// A slot borrow was requested while another one was outstanding.
    AlreadyBorrowed,
}

} // verus!
