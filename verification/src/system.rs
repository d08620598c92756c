//! The demonstration system: boot, foreground loop, and handler entry
//! points wired through the guarded containers.
//!
//! At boot the foreground claims the singleton peripheral — claimable at
//! most once per program lifetime — and installs it into a guarded slot
//! inside a critical section. A periodic timer handler later borrows the
//! peripheral, clears its pending condition, and toggles a companion
//! boolean state, both steps inside one critical-section entry, so the
//! foreground can never read a half-updated state. A button handler
//! latches a press into a guarded flag that the foreground consumes.

use vstd::pervasive::unreached;
use vstd::prelude::*;

use crate::Fault;
use crate::cell::GuardedCell;
use crate::counter::SharedCounter;
use crate::critical::CriticalSectionManager;

use crate::slot::GuardedSlot;
use crate::slot::SlotView;

verus! {

/// The model of the hardware resource held in the slot: all the logic
/// reads of it is whether its triggering condition is pending.
pub struct Peripheral {
    pending: bool,
}

impl Peripheral {
    /// Whether the triggering condition is pending. A handler must clear
    /// it before returning, or the interrupt fires again at once.
    pub closed spec fn pending(self) -> bool {
        self.pending
    }

    /// The hardware raises the triggering condition.
    pub fn raise_pending(&mut self)
        ensures
            final(self).pending(),
    {
        self.pending = true;
    }

    /// Clears the triggering condition.
    pub fn clear_pending(&mut self)
        ensures
            !final(self).pending(),
    {
        self.pending = false;
    }
}

/// Supplies the configured, singleton peripheral instance. The
/// underlying hardware resource exists once, so a second request is a
/// fatal configuration error at boot.
pub struct PeripheralSupply {
    taken: bool,
}

impl PeripheralSupply {
    /// Whether the singleton has already been claimed.
    pub closed spec fn taken(self) -> bool {
        self.taken
    }

    /// The supply of an untouched system.
    pub fn new() -> (r: Self)
        ensures
            !r.taken(),
    {
        PeripheralSupply { taken: false }
    }

    /// Claims the singleton peripheral: succeeds exactly on the first
    /// request and fails every later one with
    /// [`Fault::ConfigurationError`].
    pub fn take(&mut self) -> (r: Result<Peripheral, Fault>)
        ensures
            (r is Ok) == !old(self).taken(),
            final(self).taken(),
            r matches Ok(p) ==> !p.pending(),
            r matches Err(f) ==> f == Fault::ConfigurationError,
    {
        if self.taken {
            Err(Fault::ConfigurationError)
        } else {
            self.taken = true;
            Ok(Peripheral { pending: false })
        }
    }
}

/// The whole demonstration: the critical-section manager, the guarded
/// slot holding the peripheral, the companion boolean state, the shared
/// counter, the latched button flag, and the foreground's edge-detection
/// state.
pub struct DemoSystem {
    manager: CriticalSectionManager,
    slot: GuardedSlot<Peripheral>,
    led: GuardedCell<bool>,
    counter: SharedCounter,
    button_pressed: GuardedCell<bool>,
    last_level: bool,
}

impl DemoSystem {
    /// Between events nothing is half-done: no critical section is
    /// active and no slot borrow is outstanding.
    pub closed spec fn wf(self) -> bool {
        &&& !self.manager.is_active()
        &&& !self.slot@.borrowed
    }

    /// The abstract state of the peripheral slot.
    pub closed spec fn slot_state(self) -> SlotView<Peripheral> {
        self.slot@
    }

    /// Whether the peripheral is installed in the slot.
    pub closed spec fn installed(self) -> bool {
        self.slot@.content is Some
    }

    /// Whether the installed peripheral's triggering condition is
    /// pending.
    pub closed spec fn peripheral_pending(self) -> bool {
        self.slot@.content->0.pending()
    }

    /// The companion boolean state the timer handler toggles.
    pub closed spec fn led(self) -> bool {
        self.led@
    }

    /// The shared counter's current value.
    pub closed spec fn counter_value(self) -> u64 {
        self.counter.value()
    }

    /// Whether a button press is latched and not yet consumed.
    pub closed spec fn button_pressed(self) -> bool {
        self.button_pressed@
    }

    /// The boolean level the foreground saw on its previous poll.
    pub closed spec fn last_level(self) -> bool {
        self.last_level
    }

    /// Boot: claims the singleton peripheral and installs it into the
    /// slot inside a critical section. Succeeds exactly when the
    /// singleton was still unclaimed; a second request is a fatal
    /// [`Fault::ConfigurationError`].
    pub fn boot(supply: &mut PeripheralSupply) -> (r: Result<DemoSystem, Fault>)
        ensures
            (r is Ok) == !old(supply).taken(),
            final(supply).taken(),
            r matches Ok(sys) ==> {
                &&& sys.wf()
                &&& sys.installed()
                &&& !sys.peripheral_pending()
                &&& !sys.led()
                &&& sys.counter_value() == 0
                &&& !sys.button_pressed()
                &&& !sys.last_level()
            },
            r matches Err(f) ==> f == Fault::ConfigurationError,
    {
        let peripheral = match supply.take() {
            Ok(p) => p,
            Err(f) => {
                return Err(f);
            },
        };
        let mut manager = CriticalSectionManager::new();
        let mut slot = GuardedSlot::empty();
        let token = manager.enter();
        slot.install(&token, peripheral);
        manager.exit(token);
        Ok(
            DemoSystem {
                manager,
                slot,
                led: GuardedCell::new(false),
                counter: SharedCounter::new(),
                button_pressed: GuardedCell::new(false),
                last_level: false,
            },
        )
    }

    /// One foreground poll: on a rising edge of `level` — high now, low
    /// on the previous poll — the foreground enters a critical section
    /// and increments the shared counter; otherwise nothing changes but
    /// the remembered level.
    pub fn foreground_poll(&mut self, level: bool)
        requires
            old(self).wf(),
            old(self).counter_value() < u64::MAX,
        ensures
            final(self).wf(),
            final(self).last_level() == level,
            level && !old(self).last_level() ==> final(self).counter_value() == old(
                self,
            ).counter_value() + 1,
            !(level && !old(self).last_level()) ==> final(self).counter_value() == old(
                self,
            ).counter_value(),
            final(self).led() == old(self).led(),
            final(self).button_pressed() == old(self).button_pressed(),
            final(self).slot_state() == old(self).slot_state(),
    {
        if level && !self.last_level {
            let token = self.manager.enter();
            self.counter.increment(&token);
            self.manager.exit(token);
        }
        self.last_level = level;
    }

    /// The periodic counter handler: reads the current value for
    /// reporting and resets it to zero, one atomic guarded operation.
    /// Its invocation already implies exclusivity relative to the
    /// foreground, and it uses the same token discipline.
    pub fn on_counter_tick(&mut self) -> (observed: u64)
        requires
            old(self).wf(),
        ensures
            final(self).wf(),
            observed == old(self).counter_value(),
            final(self).counter_value() == 0,
            final(self).led() == old(self).led(),
            final(self).button_pressed() == old(self).button_pressed(),
            final(self).last_level() == old(self).last_level(),
            final(self).slot_state() == old(self).slot_state(),
    {
        let token = self.manager.enter();
        let observed = self.counter.drain(&token);
        self.manager.exit(token);
        observed
    }

    /// The button handler: latches the press into the guarded flag. The
    /// triggering condition is cleared by the surrounding dispatch glue
    /// before this runs.
    pub fn on_button_press(&mut self)
        requires
            old(self).wf(),
        ensures
            final(self).wf(),
            final(self).button_pressed(),
            final(self).counter_value() == old(self).counter_value(),
            final(self).led() == old(self).led(),
            final(self).last_level() == old(self).last_level(),
            final(self).slot_state() == old(self).slot_state(),
    {
        let token = self.manager.enter();
        self.button_pressed.set(&token, true);
        self.manager.exit(token);
    }

    /// One pass of the foreground service loop: consumes the latched
    /// button flag — read and clear as one guarded operation — and, if a
    /// press was latched, toggles the companion boolean state.
    pub fn foreground_service_button(&mut self) -> (was_pressed: bool)
        requires
            old(self).wf(),
        ensures
            final(self).wf(),
            was_pressed == old(self).button_pressed(),
            !final(self).button_pressed(),
            was_pressed ==> final(self).led() == !old(self).led(),
            !was_pressed ==> final(self).led() == old(self).led(),
            final(self).counter_value() == old(self).counter_value(),
            final(self).last_level() == old(self).last_level(),
            final(self).slot_state() == old(self).slot_state(),
    {
        let token = self.manager.enter();
        let was_pressed = self.button_pressed.replace(&token, false);
        if was_pressed {
            let lit = self.led.get(&token);
            self.led.set(&token, !lit);
        }
        self.manager.exit(token);
        was_pressed
    }

    /// The periodic timer handler: the hardware has raised the
    /// triggering condition; the handler borrows the peripheral, clears
    /// the condition, and toggles the companion boolean state — both
    /// steps inside one critical-section entry, so the foreground never
    /// reads a half-updated state. The borrow is released before the
    /// handler returns.
    pub fn on_timer_tick(&mut self)
        requires
            old(self).wf(),
            old(self).installed(),
        ensures
            final(self).wf(),
            final(self).installed(),
            !final(self).peripheral_pending(),
            final(self).led() == !old(self).led(),
            final(self).counter_value() == old(self).counter_value(),
            final(self).button_pressed() == old(self).button_pressed(),
            final(self).last_level() == old(self).last_level(),
    {
        let token = self.manager.enter();
        match self.slot.borrow_mut(&token) {
            Ok(mut handle) => {
                let peripheral = handle.value_mut();
                // The assertion that invoked this handler is the
                // hardware raising the condition; the handler must
                // clear it before returning.
                peripheral.raise_pending();
                peripheral.clear_pending();
                let lit = self.led.get(&token);
                self.led.set(&token, !lit);
                self.slot.release(&token, handle);
            },
            Err(_) => unreached(),
        }
        self.manager.exit(token);
    }

    /// Replays `n` periodic timer ticks. The companion boolean state
    /// toggles exactly once per tick, so it ends equal to its start for
    /// an even `n` and inverted for an odd one, alternating
    /// deterministically along the way.
    pub fn run_timer_ticks(&mut self, n: usize)
        requires
            old(self).wf(),
            old(self).installed(),
        ensures
            final(self).wf(),
            final(self).installed(),
            final(self).led() == (old(self).led() != (n % 2 == 1)),
            final(self).counter_value() == old(self).counter_value(),
            final(self).button_pressed() == old(self).button_pressed(),
            final(self).last_level() == old(self).last_level(),
    {
        for i in 0..n
            invariant
                self.wf(),
                self.installed(),
                self.led() == (old(self).led() != (i % 2 == 1)),
                self.counter_value() == old(self).counter_value(),
                self.button_pressed() == old(self).button_pressed(),
                self.last_level() == old(self).last_level(),
        {
            self.on_timer_tick();
        }
    }

    /// A guarded foreground read of the companion boolean state, as the
    /// loop that drives the physical output performs it.
    pub fn read_led(&mut self) -> (r: bool)
        requires
            old(self).wf(),
        ensures
            final(self).wf(),
            r == old(self).led(),
            final(self).led() == old(self).led(),
            final(self).counter_value() == old(self).counter_value(),
            final(self).button_pressed() == old(self).button_pressed(),
            final(self).last_level() == old(self).last_level(),
            final(self).slot_state() == old(self).slot_state(),
    {
        let token = self.manager.enter();
        let lit = self.led.get(&token);
        self.manager.exit(token);
        lit
    }

    /// A guarded foreground read of the shared counter, without the
    /// handler's reset.
    pub fn read_counter(&mut self) -> (r: u64)
        requires
            old(self).wf(),
        ensures
            final(self).wf(),
            r == old(self).counter_value(),
            final(self).counter_value() == old(self).counter_value(),
            final(self).led() == old(self).led(),
            final(self).button_pressed() == old(self).button_pressed(),
            final(self).last_level() == old(self).last_level(),
            final(self).slot_state() == old(self).slot_state(),
    {
        let token = self.manager.enter();
        let value = self.counter.current(&token);
        self.manager.exit(token);
        value
    }
}

} // verus!

