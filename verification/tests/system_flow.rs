use irq_guard::context::ExecutionContext;
use irq_guard::context::HandlerFrame;
use irq_guard::context::InterruptController;
use irq_guard::system::DemoSystem;
use irq_guard::system::PeripheralSupply;
use irq_guard::Fault;

#[test]
fn assertion_while_idle_dispatches() {
    let mut ctrl = InterruptController::new();
    assert_eq!(ctrl.current_context(), ExecutionContext::Foreground);
    ctrl.assert_irq(4, 1);
    assert_eq!(ctrl.current_context(), ExecutionContext::Background { id: 4, priority: 1 });
    ctrl.handler_return();
    assert_eq!(ctrl.current_context(), ExecutionContext::Foreground);
}

#[test]
fn higher_priority_preempts_running_handler() {
    let mut ctrl = InterruptController::new();
    ctrl.assert_irq(4, 1);
    ctrl.assert_irq(9, 3);
    assert_eq!(ctrl.current_context(), ExecutionContext::Background { id: 9, priority: 3 });
    ctrl.handler_return();
    assert_eq!(ctrl.current_context(), ExecutionContext::Background { id: 4, priority: 1 });
}

#[test]
fn equal_or_lower_priority_is_latched() {
    let mut ctrl = InterruptController::new();
    ctrl.assert_irq(4, 2);
    ctrl.assert_irq(9, 2);
    ctrl.assert_irq(7, 1);
    // Neither assertion preempts the running handler.
    assert_eq!(ctrl.current_context(), ExecutionContext::Background { id: 4, priority: 2 });
    ctrl.handler_return();
    // On return the latched assertions are taken, highest priority first.
    assert_eq!(ctrl.dispatch_pending(), Some(HandlerFrame { id: 9, priority: 2 }));
    ctrl.handler_return();
    assert_eq!(ctrl.dispatch_pending(), Some(HandlerFrame { id: 7, priority: 1 }));
    ctrl.handler_return();
    assert_eq!(ctrl.dispatch_pending(), None);
    assert_eq!(ctrl.current_context(), ExecutionContext::Foreground);
}

#[test]
fn masked_assertions_are_latched_until_unmask() {
    let mut ctrl = InterruptController::new();
    ctrl.mask();
    ctrl.assert_irq(4, 5);
    assert_eq!(ctrl.current_context(), ExecutionContext::Foreground);
    assert_eq!(ctrl.dispatch_pending(), None);
    ctrl.unmask();
    assert_eq!(ctrl.dispatch_pending(), Some(HandlerFrame { id: 4, priority: 5 }));
    assert_eq!(ctrl.current_context(), ExecutionContext::Background { id: 4, priority: 5 });
}

#[test]
fn dispatch_takes_first_of_highest_priority() {
    let mut ctrl = InterruptController::new();
    ctrl.mask();
    ctrl.assert_irq(1, 2);
    ctrl.assert_irq(2, 5);
    ctrl.assert_irq(3, 5);
    ctrl.unmask();
    assert_eq!(ctrl.dispatch_pending(), Some(HandlerFrame { id: 2, priority: 5 }));
}

#[test]
fn singleton_peripheral_taken_once() {
    let mut supply = PeripheralSupply::new();
    assert!(supply.take().is_ok());
    assert_eq!(supply.take().err(), Some(Fault::ConfigurationError));
    assert_eq!(supply.take().err(), Some(Fault::ConfigurationError));
}

#[test]
fn second_boot_fails_with_configuration_error() {
    let mut supply = PeripheralSupply::new();
    let first = DemoSystem::boot(&mut supply);
    assert!(first.is_ok());
    let second = DemoSystem::boot(&mut supply);
    assert_eq!(second.err(), Some(Fault::ConfigurationError));
}

#[test]
fn hundred_ticks_toggle_alternating_from_false() {
    let mut supply = PeripheralSupply::new();
    let mut sys = DemoSystem::boot(&mut supply).unwrap();
    assert!(!sys.read_led());

    let mut toggles = 0u32;
    let mut previous = sys.read_led();
    for k in 0..100u32 {
        sys.on_timer_tick();
        let current = sys.read_led();
        assert_ne!(current, previous);
        // Alternates deterministically starting from false: high after
        // the odd-numbered ticks, low after the even-numbered ones.
        assert_eq!(current, k % 2 == 0);
        toggles += 1;
        previous = current;
    }
    assert_eq!(toggles, 100);
    assert!(!sys.read_led());
}

#[test]
fn run_timer_ticks_parity() {
    let mut supply = PeripheralSupply::new();
    let mut sys = DemoSystem::boot(&mut supply).unwrap();
    sys.run_timer_ticks(100);
    assert!(!sys.read_led());
    sys.run_timer_ticks(3);
    assert!(sys.read_led());
    sys.run_timer_ticks(0);
    assert!(sys.read_led());
}

#[test]
fn button_press_is_latched_and_consumed_once() {
    let mut supply = PeripheralSupply::new();
    let mut sys = DemoSystem::boot(&mut supply).unwrap();

    assert!(!sys.foreground_service_button());
    assert!(!sys.read_led());

    sys.on_button_press();
    assert!(sys.foreground_service_button());
    assert!(sys.read_led());

    assert!(!sys.foreground_service_button());
    assert!(sys.read_led());
}

#[test]
fn foreground_poll_counts_rising_edges_only() {
    let mut supply = PeripheralSupply::new();
    let mut sys = DemoSystem::boot(&mut supply).unwrap();

    for level in [false, true, true, false, true, true, false] {
        sys.foreground_poll(level);
    }
    assert_eq!(sys.read_counter(), 2);
    assert_eq!(sys.on_counter_tick(), 2);
    assert_eq!(sys.read_counter(), 0);
    assert_eq!(sys.on_counter_tick(), 0);
}

#[test]
fn timer_tick_clears_pending_and_keeps_counter() {
    let mut supply = PeripheralSupply::new();
    let mut sys = DemoSystem::boot(&mut supply).unwrap();

    sys.foreground_poll(true);
    assert_eq!(sys.read_counter(), 1);
    sys.on_timer_tick();
    // The tick touches the peripheral and the companion state only.
    assert_eq!(sys.read_counter(), 1);
    assert!(sys.read_led());
}
