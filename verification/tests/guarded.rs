use irq_guard::Fault;
use irq_guard::cell::GuardedCell;
use irq_guard::counter::run_counter_trace;
use irq_guard::counter::CounterEvent;
use irq_guard::counter::SharedCounter;
use irq_guard::critical::CriticalSectionManager;
use irq_guard::race::lost_increment_interleaving;
use irq_guard::race::RacyCounter;
use irq_guard::slot::GuardedSlot;

#[test]
fn cell_get_set_replace() {
    let mut manager = CriticalSectionManager::new();
    let mut cell = GuardedCell::new(4u32);

    let token = manager.enter();
    assert_eq!(cell.get(&token), 4);
    cell.set(&token, 11);
    assert_eq!(cell.get(&token), 11);
    let prev = cell.replace(&token, 23);
    assert_eq!(prev, 11);
    assert_eq!(cell.get(&token), 23);
    manager.exit(token);
}

#[test]
fn counter_counts_increments_between_drains() {
    let mut manager = CriticalSectionManager::new();
    let mut counter = SharedCounter::new();

    for _ in 0..3 {
        let token = manager.enter();
        counter.increment(&token);
        manager.exit(token);
    }
    let token = manager.enter();
    assert_eq!(counter.drain(&token), 3);
    manager.exit(token);

    for _ in 0..2 {
        let token = manager.enter();
        counter.increment(&token);
        manager.exit(token);
    }
    let token = manager.enter();
    assert_eq!(counter.current(&token), 2);
    assert_eq!(counter.drain(&token), 2);
    manager.exit(token);

    let token = manager.enter();
    assert_eq!(counter.drain(&token), 0);
    manager.exit(token);
}

#[test]
fn counter_trace_observes_increments_since_previous_drain() {
    let mut manager = CriticalSectionManager::new();
    let events = vec![
        CounterEvent::Increment,
        CounterEvent::Increment,
        CounterEvent::Drain,
        CounterEvent::Increment,
        CounterEvent::Drain,
        CounterEvent::Drain,
    ];
    let observations = run_counter_trace(&events, &mut manager);
    assert_eq!(observations, vec![2, 1, 0]);
}

#[test]
fn counter_trace_edge_cases() {
    let mut manager = CriticalSectionManager::new();

    let none: Vec<CounterEvent> = Vec::new();
    assert_eq!(run_counter_trace(&none, &mut manager), Vec::<u64>::new());

    let drain_first = vec![CounterEvent::Drain, CounterEvent::Increment];
    assert_eq!(run_counter_trace(&drain_first, &mut manager), vec![0]);

    let only_increments = vec![CounterEvent::Increment; 7];
    assert_eq!(run_counter_trace(&only_increments, &mut manager), Vec::<u64>::new());
}

#[test]
fn unguarded_drain_loses_an_increment() {
    let (made, reported) = lost_increment_interleaving();
    assert_eq!(made, 6);
    assert_eq!(reported, 5);
    assert!(reported < made);
}

#[test]
fn unguarded_interleaving_step_by_step() {
    let mut counter = RacyCounter::new();
    for _ in 0..5 {
        counter.increment();
    }
    // The foreground reads for reporting...
    let reported = counter.observe();
    assert_eq!(reported, 5);
    // ...a handler's increment lands before the reset...
    counter.increment();
    // ...and the reset wipes it without it ever being reported.
    counter.reset();
    assert_eq!(counter.observe(), 0);
}

#[test]
fn overlapping_borrow_faults() {
    let mut manager = CriticalSectionManager::new();
    let mut slot: GuardedSlot<u32> = GuardedSlot::empty();

    let token = manager.enter();
    slot.install(&token, 7);
    let first = slot.borrow_mut(&token);
    assert!(first.is_ok());
    let second = slot.borrow_mut(&token);
    assert_eq!(second.err(), Some(Fault::AlreadyBorrowed));
    manager.exit(token);
}

#[test]
fn borrow_after_release_succeeds() {
    let mut manager = CriticalSectionManager::new();
    let mut slot: GuardedSlot<u32> = GuardedSlot::empty();

    let token = manager.enter();
    slot.install(&token, 7);
    let handle = slot.borrow_mut(&token).unwrap();
    slot.release(&token, handle);
    let again = slot.borrow_mut(&token);
    assert!(again.is_ok());
    manager.exit(token);
}

#[test]
fn exclusive_handle_mutates_content() {
    let mut manager = CriticalSectionManager::new();
    let mut slot: GuardedSlot<u32> = GuardedSlot::empty();

    let token = manager.enter();
    slot.install(&token, 7);
    let mut handle = slot.borrow_mut(&token).unwrap();
    assert!(handle.is_installed());
    *handle.value_mut() = 9;
    slot.release(&token, handle);

    let mut handle = slot.borrow_mut(&token).unwrap();
    assert_eq!(*handle.value_mut(), 9);
    slot.release(&token, handle);
    manager.exit(token);
}

#[test]
fn install_overwrites_previous_content() {
    let mut manager = CriticalSectionManager::new();
    let mut slot: GuardedSlot<u32> = GuardedSlot::empty();

    let token = manager.enter();
    slot.install(&token, 1);
    slot.install(&token, 2);
    let mut handle = slot.borrow_mut(&token).unwrap();
    assert_eq!(*handle.value_mut(), 2);
    slot.release(&token, handle);
    manager.exit(token);
}

#[test]
fn empty_slot_borrow_yields_uninstalled_handle() {
    let mut manager = CriticalSectionManager::new();
    let mut slot: GuardedSlot<u32> = GuardedSlot::empty();

    let token = manager.enter();
    let handle = slot.borrow_mut(&token).unwrap();
    assert!(!handle.is_installed());
    slot.release(&token, handle);
    manager.exit(token);
}
