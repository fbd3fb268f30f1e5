use lora_core::dispatcher::deliver_timer_tick;
use lora_core::dispatcher::EventDispatcher;
use lora_core::errors::CoreError;
use lora_core::events::Event;
use lora_core::events::EventClass;
use lora_core::events::MacEvent;
use lora_core::queue::EventQueue;
use lora_core::timer::TimerContext;

#[test]
fn queue_is_fifo() {
    let mut q = EventQueue::new(3);
    assert_eq!(q.enqueue(Event::RadioLineAsserted), Ok(()));
    assert_eq!(q.enqueue(Event::SerialByteArrived), Ok(()));
    assert_eq!(q.enqueue(Event::TimerTick), Ok(()));
    assert_eq!(q.dequeue(), Some(Event::RadioLineAsserted));
    assert_eq!(q.dequeue(), Some(Event::SerialByteArrived));
    assert_eq!(q.dequeue(), Some(Event::TimerTick));
    assert_eq!(q.dequeue(), None);
}

#[test]
fn overflow_keeps_first_four_and_drops_one() {
    // Five events offered to a capacity-four queue: the first four are
    // delivered in FIFO order, exactly one is dropped and counted.
    let mut q = EventQueue::new(4);
    let events = [
        Event::RadioIndication(1),
        Event::RadioIndication(2),
        Event::RadioIndication(3),
        Event::RadioIndication(4),
        Event::RadioIndication(5),
    ];
    for (i, e) in events.iter().enumerate() {
        let r = q.enqueue(*e);
        if i < 4 {
            assert_eq!(r, Ok(()));
        } else {
            assert_eq!(r, Err(CoreError::QueueFull));
        }
    }
    assert_eq!(q.dropped_so_far(), 1);
    for e in events.iter().take(4) {
        assert_eq!(q.dequeue(), Some(*e));
    }
    assert_eq!(q.dequeue(), None);
}

#[test]
fn queue_reports_length() {
    let mut q = EventQueue::new(2);
    assert_eq!(q.len(), 0);
    let _ = q.enqueue(Event::TimerTick);
    assert_eq!(q.len(), 1);
    let _ = q.dequeue();
    assert_eq!(q.len(), 0);
}

#[test]
fn duplicate_registration_is_rejected() {
    let mut d = EventDispatcher::new();
    assert_eq!(d.register(EventClass::RadioLine, 5), Ok(()));
    assert_eq!(
        d.register(EventClass::RadioLine, 9),
        Err(CoreError::ConfigurationError)
    );
}

#[test]
fn dispatch_to_unbound_class_is_rejected() {
    let mut d = EventDispatcher::new();
    assert_eq!(
        d.dispatch(Event::TimerTick),
        Err(CoreError::ConfigurationError)
    );
}

#[test]
fn higher_priority_runs_first() {
    let mut d = EventDispatcher::new();
    assert_eq!(d.register(EventClass::TimerTick, 7), Ok(()));
    assert_eq!(d.register(EventClass::MacEvent, 2), Ok(()));
    assert_eq!(d.dispatch(Event::MacEvent(MacEvent::StartJoin)), Ok(()));
    assert_eq!(d.dispatch(Event::TimerTick), Ok(()));
    assert_eq!(d.pop_next(), Some((EventClass::TimerTick, Event::TimerTick)));
    assert_eq!(
        d.pop_next(),
        Some((EventClass::MacEvent, Event::MacEvent(MacEvent::StartJoin)))
    );
    assert_eq!(d.pop_next(), None);
}

#[test]
fn equal_priorities_run_in_class_order() {
    let mut d = EventDispatcher::new();
    assert_eq!(d.register(EventClass::SerialByte, 4), Ok(()));
    assert_eq!(d.register(EventClass::RadioLine, 4), Ok(()));
    assert_eq!(d.dispatch(Event::SerialByteArrived), Ok(()));
    assert_eq!(d.dispatch(Event::RadioLineAsserted), Ok(()));
    assert_eq!(
        d.pop_next(),
        Some((EventClass::RadioLine, Event::RadioLineAsserted))
    );
    assert_eq!(
        d.pop_next(),
        Some((EventClass::SerialByte, Event::SerialByteArrived))
    );
    assert_eq!(d.pop_next(), None);
}

#[test]
fn events_of_one_class_stay_in_arrival_order() {
    let mut d = EventDispatcher::new();
    assert_eq!(d.register(EventClass::RadioIndication, 6), Ok(()));
    assert_eq!(d.dispatch(Event::RadioIndication(10)), Ok(()));
    assert_eq!(d.dispatch(Event::RadioIndication(20)), Ok(()));
    assert_eq!(
        d.pop_next(),
        Some((EventClass::RadioIndication, Event::RadioIndication(10)))
    );
    assert_eq!(
        d.pop_next(),
        Some((EventClass::RadioIndication, Event::RadioIndication(20)))
    );
    assert_eq!(d.pop_next(), None);
}

#[test]
fn timer_firing_is_routed_to_mac_queue() {
    let mut d = EventDispatcher::new();
    let mut t = TimerContext::new();
    assert_eq!(d.register(EventClass::MacEvent, 3), Ok(()));
    t.arm(2);
    assert_eq!(deliver_timer_tick(&mut d, &mut t), Ok(false));
    assert_eq!(deliver_timer_tick(&mut d, &mut t), Ok(true));
    assert_eq!(
        d.pop_next(),
        Some((EventClass::MacEvent, Event::MacEvent(MacEvent::TimerFired)))
    );
    assert_eq!(d.pop_next(), None);
}

#[test]
fn timer_firing_without_mac_task_is_rejected() {
    let mut d = EventDispatcher::new();
    let mut t = TimerContext::new();
    t.arm(1);
    assert_eq!(
        deliver_timer_tick(&mut d, &mut t),
        Err(CoreError::ConfigurationError)
    );
    // The timer still fired and reset; only the routing failed.
    assert!(!t.enabled);
}

#[test]
fn dispatch_overflow_reports_queue_full() {
    let mut d = EventDispatcher::new();
    assert_eq!(d.register(EventClass::SerialByte, 1), Ok(()));
    for _ in 0..4 {
        assert_eq!(d.dispatch(Event::SerialByteArrived), Ok(()));
    }
    assert_eq!(
        d.dispatch(Event::SerialByteArrived),
        Err(CoreError::QueueFull)
    );
    assert_eq!(d.queued_len(EventClass::SerialByte), 4);
}
