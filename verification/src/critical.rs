//! Critical sections and the exclusivity token.
//!
//! A critical section masks interrupt delivery for its whole duration, so
//! read-modify-write sequences on guarded state are atomic with respect to
//! every handler. The token issued on entry is the proof of that
//! exclusivity: the guarded containers accept an access only together with
//! a token, and a token exists only while a section is active.

use vstd::prelude::*;

verus! {

/// Proof of exclusivity: a value of this type exists only between
/// [`CriticalSectionManager::enter`] and the matching
/// [`CriticalSectionManager::exit`]. It cannot be constructed elsewhere,
/// cloned, or kept past the section: `exit` consumes it.
pub struct CsToken {
    _private: (),
}

/// Masks and restores interrupt delivery and issues the token.
///
/// At most one critical section is active system-wide at any instant:
/// entry requires that no section is active, so re-entrant nesting — a
/// usage error in this design — is ruled out at the call site.
pub struct CriticalSectionManager {
    active: bool,
}

impl CriticalSectionManager {
    /// Whether a critical section is currently active, i.e. interrupt
    /// delivery is masked and a token is outstanding.
    pub closed spec fn is_active(self) -> bool {
        self.active
    }

    /// A manager for a system that starts outside any critical section.
    pub fn new() -> (r: Self)
        ensures
            !r.is_active(),
    {
        CriticalSectionManager { active: false }
    }

    /// Enters a critical section: masks interrupt delivery and issues the
    /// token. Entering again while a section is active is a usage error
    /// and is excluded here rather than detected at run time.
    pub fn enter(&mut self) -> (token: CsToken)
        requires
            !old(self).is_active(),
        ensures
            final(self).is_active(),
    {
        self.active = true;
        CsToken { _private: () }
    }

    /// Leaves the critical section: restores interrupt delivery and
    /// consumes the token, so it cannot outlive the section.
    pub fn exit(&mut self, token: CsToken)
        requires
            old(self).is_active(),
        ensures
            !final(self).is_active(),
    {
        self.active = false;
    }
}

} // verus!
