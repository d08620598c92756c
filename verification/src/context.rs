//! The two-tier execution context and its priority discipline.
//!
//! A single core runs a foreground loop that may be interrupted at any
//! instruction boundary by an armed interrupt source; a handler can be
//! preempted only by a strictly higher-priority handler. An assertion of
//! equal or lower priority — or any assertion while interrupt delivery
//! is masked by a critical section — is latched pending, not dispatched,
//! until the current handler returns or the section ends.

use vstd::prelude::*;

verus! {

/// One handler activation: the fixed vector identifier the controller
/// dispatches by, and the priority it runs at.
#[derive(Clone, Copy, Debug, PartialEq, Eq, Structural)]
pub struct HandlerFrame {
    pub id: u32,
    pub priority: u8,
}

/// Where execution currently stands: the foreground loop, or a specific
/// handler.
#[derive(Clone, Copy, Debug, PartialEq, Eq, Structural)]
pub enum ExecutionContext {
    Foreground,
    Background { id: u32, priority: u8 },
}

/// The abstract state of the controller: the stack of nested handler
/// activations (innermost last), the latched assertions, and whether a
/// critical section masks delivery.
pub struct ControllerView {
    pub stack: Seq<HandlerFrame>,
    pub pending: Seq<HandlerFrame>,
    pub masked: bool,
}

/// The index of the first frame with maximal priority in a non-empty
/// sequence of latched assertions.
pub open spec fn first_max_index(frames: Seq<HandlerFrame>) -> int
    decreases frames.len(),
{
    if frames.len() <= 1 {
        0
    } else {
        let j = first_max_index(frames.drop_last());
        if frames.last().priority > frames[j].priority {
            frames.len() - 1
        } else {
            j
        }
    }
}

impl ControllerView {
    /// The execution context this state stands in.
    pub open spec fn context(self) -> ExecutionContext {
        if self.stack.len() == 0 {
            ExecutionContext::Foreground
        } else {
            ExecutionContext::Background {
                id: self.stack.last().id,
                priority: self.stack.last().priority,
            }
        }
    }

    /// Whether an assertion at `priority` is dispatched at once: delivery
    /// is unmasked, and either the foreground runs or the current handler
    /// has strictly lower priority.
    pub open spec fn admits(self, priority: u8) -> bool {
        &&& !self.masked
        &&& (self.stack.len() == 0 || self.stack.last().priority < priority)
    }

    /// The state after an interrupt assertion: dispatched when admitted,
    /// latched pending otherwise.
    pub open spec fn after_assert(self, frame: HandlerFrame) -> ControllerView {
        if self.admits(frame.priority) {
            ControllerView { stack: self.stack.push(frame), pending: self.pending, masked: self.masked }
        } else {
            ControllerView { stack: self.stack, pending: self.pending.push(frame), masked: self.masked }
        }
    }

    /// The state after the innermost handler returns: pop to the
    /// previous state.
    pub open spec fn after_return(self) -> ControllerView {
        ControllerView { stack: self.stack.drop_last(), pending: self.pending, masked: self.masked }
    }

    /// The latched assertion the controller takes next, if any: the
    /// first of the highest-priority pending frames, provided the
    /// current state admits it.
    pub open spec fn next_dispatch(self) -> Option<HandlerFrame> {
        if self.pending.len() == 0 {
            None
        } else {
            let f = self.pending[first_max_index(self.pending)];
            if self.admits(f.priority) {
                Some(f)
            } else {
                None
            }
        }
    }

    /// The state after the controller re-examines the latched
    /// assertions: the chosen frame, if any, moves from pending onto the
    /// stack.
    pub open spec fn after_dispatch(self) -> ControllerView {
        match self.next_dispatch() {
            None => self,
            Some(f) => ControllerView {
                stack: self.stack.push(f),
                pending: self.pending.remove(first_max_index(self.pending)),
                masked: self.masked,
            },
        }
    }
}

/// The interrupt controller model: tracks nested handler activations,
/// latches assertions it cannot dispatch, and honours the critical
/// section mask.
pub struct InterruptController {
    stack: Vec<HandlerFrame>,
    pending: Vec<HandlerFrame>,
    masked: bool,
}

impl View for InterruptController {
    type V = ControllerView;

    closed spec fn view(&self) -> ControllerView {
        ControllerView { stack: self.stack@, pending: self.pending@, masked: self.masked }
    }
}

impl InterruptController {
    /// A controller for a system that starts in the foreground with
    /// nothing latched and delivery unmasked.
    pub fn new() -> (r: Self)
        ensures
            r@.stack.len() == 0,
            r@.pending.len() == 0,
            !r@.masked,
    {
        InterruptController { stack: Vec::new(), pending: Vec::new(), masked: false }
    }

    /// The execution context the controller currently stands in.
    pub fn current_context(&self) -> (r: ExecutionContext)
        ensures
            r == self@.context(),
    {
        if self.stack.len() == 0 {
            ExecutionContext::Foreground
        } else {
            let f = self.stack[self.stack.len() - 1];
            ExecutionContext::Background { id: f.id, priority: f.priority }
        }
    }

    /// Masks interrupt delivery for a critical section.
    pub fn mask(&mut self)
        ensures
            final(self)@ == (ControllerView { masked: true, ..old(self)@ }),
    {
        self.masked = true;
    }

    /// Unmasks interrupt delivery when the critical section ends. What
    /// was latched meanwhile is taken by [`InterruptController::dispatch_pending`].
    pub fn unmask(&mut self)
        ensures
            final(self)@ == (ControllerView { masked: false, ..old(self)@ }),
    {
        self.masked = false;
    }

    /// An interrupt source asserts at `priority`: dispatched at once
    /// when the current state admits it, latched pending otherwise.
    pub fn assert_irq(&mut self, id: u32, priority: u8)
        ensures
            final(self)@ == old(self)@.after_assert(HandlerFrame { id, priority }),
    {
        let frame = HandlerFrame { id, priority };
        let admitted = !self.masked && (self.stack.len() == 0 || {
            let top = self.stack[self.stack.len() - 1];
            top.priority < priority
        });
        if admitted {
            self.stack.push(frame);
        } else {
            self.pending.push(frame);
        }
    }

    /// The innermost handler returns: pop to the previous state.
    pub fn handler_return(&mut self)
        requires
            old(self)@.stack.len() > 0,
        ensures
            final(self)@ == old(self)@.after_return(),
    {
        self.stack.pop();
        proof {
            assert(self@.stack =~= old(self)@.stack.drop_last());
        }
    }

    /// Re-examines the latched assertions, as the hardware does when a
    /// handler returns or the mask drops: moves the first of the
    /// highest-priority pending frames onto the stack when the current
    /// state admits it, and reports which frame was taken.
    pub fn dispatch_pending(&mut self) -> (dispatched: Option<HandlerFrame>)
        ensures
            final(self)@ == old(self)@.after_dispatch(),
            dispatched == old(self)@.next_dispatch(),
    {
        if self.pending.len() == 0 {
            return None;
        }
        let n = self.pending.len();
        let mut best: usize = 0;
        for i in 1..n
            invariant
                n == self.pending@.len(),
                0 < n,
                0 <= best < i,
                best == first_max_index(self.pending@.take(i as int)),
        {
            proof {
                assert(self.pending@.take(i + 1).drop_last() =~= self.pending@.take(i as int));
                assert(self.pending@.take(i + 1).last() == self.pending@[i as int]);
            }
            let candidate = self.pending[i];
            if candidate.priority > self.pending[best].priority {
                best = i;
            }
        }
        proof {
            assert(self.pending@.take(n as int) =~= self.pending@);
        }
        let frame = self.pending[best];
        let admitted = !self.masked && (self.stack.len() == 0 || {
            let top = self.stack[self.stack.len() - 1];
            top.priority < frame.priority
        });
        if admitted {
            self.pending.remove(best);
            self.stack.push(frame);
            Some(frame)
        } else {
            None
        }
    }
}

/// Law: an interrupt at priority `p1` asserted during execution of a
/// handler at priority `p0 < p1` (delivery unmasked) preempts it — the
/// new frame nests on the stack and becomes the current context; one
/// asserted during a handler at priority `p0 >= p1` does not preempt and
/// is latched pending, the stack unchanged.
pub proof fn lemma_priority_preemption(v: ControllerView, id: u32, p1: u8)
    requires
        v.stack.len() > 0,
        !v.masked,
    ensures
        v.stack.last().priority < p1 ==> {
            let after = v.after_assert(HandlerFrame { id, priority: p1 });
            &&& after.stack == v.stack.push(HandlerFrame { id, priority: p1 })
            &&& after.pending == v.pending
            &&& after.context() == (ExecutionContext::Background { id, priority: p1 })
        },
        p1 <= v.stack.last().priority ==> {
            let after = v.after_assert(HandlerFrame { id, priority: p1 });
            &&& after.stack == v.stack
            &&& after.pending == v.pending.push(HandlerFrame { id, priority: p1 })
            &&& after.context() == v.context()
        },
{
}

/// Law: while a critical section masks delivery, no assertion is
/// dispatched, whatever its priority: the context is unchanged and the
/// assertion is latched pending. This is the critical-section guarantee
/// that makes guarded read-modify-write sequences atomic.
pub proof fn lemma_masked_section_latches(v: ControllerView, id: u32, priority: u8)
    requires
        v.masked,
    ensures
        ({
            let after = v.after_assert(HandlerFrame { id, priority });
            &&& after.stack == v.stack
            &&& after.pending == v.pending.push(HandlerFrame { id, priority })
            &&& after.context() == v.context()
        }),
{
}

/// Law: a handler return pops exactly to the context that was preempted:
/// after an admitted assertion and the matching return, the context is
/// what it was before the assertion.
pub proof fn lemma_return_restores_context(v: ControllerView, frame: HandlerFrame)
    requires
        v.admits(frame.priority),
    ensures
        v.after_assert(frame).after_return().stack == v.stack,
        v.after_assert(frame).after_return().context() == v.context(),
{
    assert(v.after_assert(frame).stack.drop_last() =~= v.stack);
}

} // verus!
