//! The event vocabulary of the dispatch core.

use vstd::prelude::*;

verus! {

/// An inbound message for the MAC layer.
#[derive(Clone, Copy, Debug, PartialEq, Eq, Structural)]
pub enum MacEvent {
    /// The application asks the MAC layer to start a join procedure.
    StartJoin,
    /// The multiplexed timeout elapsed.
    TimerFired,
    /// The radio modem reported an event; the code is the modem's own.
    RadioIndication(u8),
}

/// An outbound message from the MAC layer.
#[derive(Clone, Copy, Debug, PartialEq, Eq, Structural)]
pub enum MacResponse {
    /// The MAC layer asks for a timeout after the given number of
    /// millisecond ticks.
    TimerRequest(u32),
    /// The MAC layer reported an error.
    Error,
}

/// One software-level event, born in an interrupt or in a task and
/// consumed exactly once by its bound handler.
#[derive(Clone, Copy, Debug, PartialEq, Eq, Structural)]
pub enum Event {
    /// The radio signal line was asserted.
    RadioLineAsserted,
    /// A byte arrived on the serial input line.
    SerialByteArrived,
    /// The periodic hardware timer ticked.
    TimerTick,
    /// A decoded radio-modem indication; the code is the modem's own.
    RadioIndication(u8),
    /// A message bound for the MAC layer.
    MacEvent(MacEvent),
    /// A message produced by the MAC layer.
    MacResponse(MacResponse),
}

/// The event classes a task can be bound to: one per [`Event`] variant.
#[derive(Clone, Copy, Debug, PartialEq, Eq, Structural)]
pub enum EventClass {
    /// Radio signal line events.
    RadioLine,
    /// Serial input line events.
    SerialByte,
    /// Periodic timer tick events.
    TimerTick,
    /// Radio-modem indications.
    RadioIndication,
    /// Messages bound for the MAC layer.
    MacEvent,
    /// Messages produced by the MAC layer.
    MacResponse,
}

/// The class an event belongs to.
pub open spec fn spec_class_of(e: Event) -> EventClass {
    match e {
        Event::RadioLineAsserted => EventClass::RadioLine,
        Event::SerialByteArrived => EventClass::SerialByte,
        Event::TimerTick => EventClass::TimerTick,
        Event::RadioIndication(_) => EventClass::RadioIndication,
        Event::MacEvent(_) => EventClass::MacEvent,
        Event::MacResponse(_) => EventClass::MacResponse,
    }
}

/// The class an event belongs to, which decides the task queue it is
/// dispatched into.
pub fn class_of(e: &Event) -> (c: EventClass)
    ensures
        c == spec_class_of(*e),
{
    match e {
        Event::RadioLineAsserted => EventClass::RadioLine,
        Event::SerialByteArrived => EventClass::SerialByte,
        Event::TimerTick => EventClass::TimerTick,
        Event::RadioIndication(_) => EventClass::RadioIndication,
        Event::MacEvent(_) => EventClass::MacEvent,
        Event::MacResponse(_) => EventClass::MacResponse,
    }
}

/// A fixed rank for each event class, used only to make tie-breaking
/// among equal priorities deterministic.
pub open spec fn class_rank(c: EventClass) -> int {
    match c {
        EventClass::RadioLine => 0,
        EventClass::SerialByte => 1,
        EventClass::TimerTick => 2,
        EventClass::RadioIndication => 3,
        EventClass::MacEvent => 4,
        EventClass::MacResponse => 5,
    }
}

/// The event class of the given rank.
pub fn class_of_rank(i: usize) -> (c: EventClass)
    requires
        i < 6,
    ensures
        class_rank(c) == i as int,
{
    if i == 0 {
        EventClass::RadioLine
    } else if i == 1 {
        EventClass::SerialByte
    } else if i == 2 {
        EventClass::TimerTick
    } else if i == 3 {
        EventClass::RadioIndication
    } else if i == 4 {
        EventClass::MacEvent
    } else {
        EventClass::MacResponse
    }
}

} // verus!
