//! A guarded container for a composite, non-copyable value.
//!
//! Peripheral handles must not be duplicated, so the copy semantics of
//! [`crate::cell::GuardedCell`] would be unsound for them. A
//! [`GuardedSlot`] instead hands its content out through an exclusive
//! handle and tracks, at run time, that at most one handle is
//! outstanding across all execution contexts.

use vstd::pervasive::unreached;
use vstd::prelude::*;

use crate::Fault;
use crate::critical::CsToken;

verus! {

/// The abstract state of a slot: its content and whether an exclusive
/// handle on it is outstanding.
pub struct SlotView<T> {
    pub content: Option<T>,
    pub borrowed: bool,
}

impl<T> SlotView<T> {
    /// The outcome of a borrow in this state: the state afterwards, and
    /// either the content the handle receives or the fault.
    pub open spec fn after_borrow(self) -> (SlotView<T>, Result<Option<T>, Fault>) {
        if self.borrowed {
            (self, Err(Fault::AlreadyBorrowed))
        } else {
            (SlotView { content: None, borrowed: true }, Ok(self.content))
        }
    }

    /// The state after a handle holding `content` is released.
    pub open spec fn after_release(self, content: Option<T>) -> SlotView<T> {
        SlotView { content, borrowed: false }
    }
}

/// Exclusively owns an `Option<T>` for a non-copy value, with a
/// single-borrow-at-a-time check. Every access takes the exclusivity
/// token.
pub struct GuardedSlot<T> {
    content: Option<T>,
    borrowed: bool,
}

/// Scoped exclusive access to a slot's content, taken by
/// [`GuardedSlot::borrow_mut`] and given back by
/// [`GuardedSlot::release`]. While a handle is outstanding, the slot
/// refuses a second borrow.
pub struct ExclusiveHandle<T> {
    content: Option<T>,
}

impl<T> View for GuardedSlot<T> {
    type V = SlotView<T>;

    closed spec fn view(&self) -> SlotView<T> {
        SlotView { content: self.content, borrowed: self.borrowed }
    }
}

impl<T> View for ExclusiveHandle<T> {
    type V = Option<T>;

    closed spec fn view(&self) -> Option<T> {
        self.content
    }
}

impl<T> GuardedSlot<T> {
    /// An empty slot with no borrow outstanding; constructible at
    /// process start.
    pub fn empty() -> (r: Self)
        ensures
            r@.content is None,
            !r@.borrowed,
    {
        GuardedSlot { content: None, borrowed: false }
    }

    /// Moves `value` into the slot, overwriting any previous content.
    /// Installing over an outstanding borrow would duplicate the
    /// exclusive access, so it is excluded.
    pub fn install(&mut self, token: &CsToken, value: T)
        requires
            !old(self)@.borrowed,
        ensures
            final(self)@.content == Some(value),
            !final(self)@.borrowed,
    {
        self.content = Some(value);
    }

    /// Takes exclusive access to the content, or faults with
    /// [`Fault::AlreadyBorrowed`] — a reentrancy logic error, fatal by
    /// design — when another handle for this slot is outstanding. On
    /// success the content moves into the handle until
    /// [`GuardedSlot::release`] gives it back.
    pub fn borrow_mut(&mut self, token: &CsToken) -> (r: Result<ExclusiveHandle<T>, Fault>)
        ensures
            final(self)@ == old(self)@.after_borrow().0,
            old(self)@.borrowed ==> {
                &&& r matches Err(f) && f == Fault::AlreadyBorrowed
                &&& final(self)@ == old(self)@
            },
            !old(self)@.borrowed ==> {
                &&& r matches Ok(h) && h@ == old(self)@.content
                &&& final(self)@.borrowed
                &&& final(self)@.content is None
            },
    {
        if self.borrowed {
            Err(Fault::AlreadyBorrowed)
        } else {
            self.borrowed = true;
            let content = self.content.take();
            Ok(ExclusiveHandle { content })
        }
    }

    /// Gives the (possibly mutated) content back and clears the borrow
    /// flag, permitting the next borrow.
    pub fn release(&mut self, token: &CsToken, handle: ExclusiveHandle<T>)
        requires
            old(self)@.borrowed,
        ensures
            final(self)@ == old(self)@.after_release(handle@),
            final(self)@.content == handle@,
            !final(self)@.borrowed,
    {
        let ExclusiveHandle { content } = handle;
        self.content = content;
        self.borrowed = false;
    }
}

/// Law: at most one exclusive handle is outstanding at a time. After a
/// successful borrow, every further borrow before the release faults
/// with [`Fault::AlreadyBorrowed`] and changes nothing; a borrow issued
/// strictly after the release succeeds and receives the released
/// content.
pub proof fn lemma_single_outstanding_borrow<T>(v: SlotView<T>, released: Option<T>)
    requires
        !v.borrowed,
    ensures
        ({
            let (held, first) = v.after_borrow();
            &&& first == Ok::<Option<T>, Fault>(v.content)
            &&& held.after_borrow() == (held, Err::<Option<T>, Fault>(Fault::AlreadyBorrowed))
            &&& held.after_release(released).after_borrow() == (
                SlotView::<T> { content: None, borrowed: true },
                Ok::<Option<T>, Fault>(released),
            )
        }),
{
}

impl<T> ExclusiveHandle<T> {
    /// Whether the slot had a value installed when this handle was
    /// taken.
    pub fn is_installed(&self) -> (r: bool)
        ensures
            r == (self@ is Some),
    {
        self.content.is_some()
    }

    /// Exclusive access to the installed value.
    pub fn value_mut(&mut self) -> (r: &mut T)
        requires
            old(self)@ is Some,
        ensures
            *r == old(self)@->0,
            final(self)@ == Some(*final(r)),
    {
        match &mut self.content {
            Some(value) => value,
            None => unreached(),
        }
    }
}

} // verus!
