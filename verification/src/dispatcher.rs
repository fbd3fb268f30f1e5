//! The event dispatcher: a priority router from interrupt sources to
//! bounded software task queues.
//!
//! Each event class is bound at most once to a task with a fixed
//! priority and its own bounded FIFO queue. Dispatching from interrupt
//! context only enqueues — or drops and counts — and never blocks; the
//! next task to run is always one whose queue is non-empty and whose
//! priority is highest, with equal priorities served in a fixed class
//! order.

use vstd::prelude::*;

use crate::errors::CoreError;
use crate::events::class_of;
use crate::events::class_of_rank;
use crate::events::class_rank;
use crate::events::spec_class_of;
use crate::events::Event;
use crate::events::EventClass;
use crate::events::MacEvent;
use crate::queue::offer;
use crate::queue::EventQueue;
use crate::timer::tick_step;
use crate::timer::TimerContext;

verus! {

/// The fixed capacity of every task queue.
pub const TASK_QUEUE_CAPACITY: usize = 4;

/// One registered task: its fixed priority and its bounded FIFO queue.
pub struct TaskBinding {
    /// The task's fixed priority; higher runs first.
    pub priority: u8,
    /// The task's bounded event queue.
    pub queue: EventQueue,
}

/// The dispatcher: at most one task binding per event class.
pub struct EventDispatcher {
    radio_line: Option<TaskBinding>,
    serial_byte: Option<TaskBinding>,
    timer_tick: Option<TaskBinding>,
    radio_indication: Option<TaskBinding>,
    mac_event: Option<TaskBinding>,
    mac_response: Option<TaskBinding>,
}

impl EventDispatcher {
    /// The task binding of the given class, if one is registered.
    pub closed spec fn binding(&self, c: EventClass) -> Option<TaskBinding> {
        match c {
            EventClass::RadioLine => self.radio_line,
            EventClass::SerialByte => self.serial_byte,
            EventClass::TimerTick => self.timer_tick,
            EventClass::RadioIndication => self.radio_indication,
            EventClass::MacEvent => self.mac_event,
            EventClass::MacResponse => self.mac_response,
        }
    }

    /// Whether a task is bound to the given class.
    pub open spec fn is_bound(&self, c: EventClass) -> bool {
        self.binding(c) is Some
    }

    /// The priority of the task bound to the given class.
    pub open spec fn priority_of(&self, c: EventClass) -> u8 {
        self.binding(c)->Some_0.priority
    }

    /// The queued events of the class, oldest first.
    pub open spec fn contents(&self, c: EventClass) -> Seq<Event> {
        self.binding(c)->Some_0.queue@
    }

    /// The drop count of the class's queue.
    pub open spec fn drops(&self, c: EventClass) -> u64 {
        self.binding(c)->Some_0.queue.dropped_count()
    }

    /// How many events wait in the class's queue; zero for an unbound
    /// class.
    pub open spec fn queued(&self, c: EventClass) -> nat {
        if self.is_bound(c) {
            self.contents(c).len()
        } else {
            0
        }
    }

    /// Every bound queue respects its fixed capacity.
    pub open spec fn wf(&self) -> bool {
        forall|c: EventClass|
            #[trigger] self.is_bound(c) ==> self.binding(c)->Some_0.queue.wf() && self.binding(
                c,
            )->Some_0.queue.capacity() == TASK_QUEUE_CAPACITY
    }

    /// A dispatcher with no task bound yet.
    pub fn new() -> (d: EventDispatcher)
        ensures
            forall|c: EventClass| d.binding(c) == Option::<TaskBinding>::None,
            d.wf(),
    {
        EventDispatcher {
            radio_line: None,
            serial_byte: None,
            timer_tick: None,
            radio_indication: None,
            mac_event: None,
            mac_response: None,
        }
    }

    /// Binds one event class to a task of the given priority, with a
    /// fresh empty queue — once: a second registration of the same
    /// class fails with `ConfigurationError` and changes nothing.
    pub fn register(&mut self, c: EventClass, priority: u8) -> (r: Result<(), CoreError>)
        ensures
            old(self).is_bound(c) ==> r == Err::<(), CoreError>(CoreError::ConfigurationError)
                && *final(self) == *old(self),
            !old(self).is_bound(c) ==> r == Ok::<(), CoreError>(()) && final(self).is_bound(c)
                && final(self).priority_of(c) == priority && final(self).contents(c) == Seq::<
                Event,
            >::empty() && final(self).drops(c) == 0,
            forall|other: EventClass|
                other != c ==> final(self).binding(other) == old(self).binding(other),
            old(self).wf() ==> final(self).wf(),
    {
        if self.slot_is_bound(c) {
            return Err(CoreError::ConfigurationError);
        }
        let binding = TaskBinding { priority, queue: EventQueue::new(TASK_QUEUE_CAPACITY) };
        match c {
            EventClass::RadioLine => {
                self.radio_line = Some(binding);
            },
            EventClass::SerialByte => {
                self.serial_byte = Some(binding);
            },
            EventClass::TimerTick => {
                self.timer_tick = Some(binding);
            },
            EventClass::RadioIndication => {
                self.radio_indication = Some(binding);
            },
            EventClass::MacEvent => {
                self.mac_event = Some(binding);
            },
            EventClass::MacResponse => {
                self.mac_response = Some(binding);
            },
        }
        proof {
            assert(forall|other: EventClass|
                other != c ==> self.binding(other) == old(self).binding(other));
            if old(self).wf() {
                assert forall|c2: EventClass| #[trigger] self.is_bound(c2) implies self.binding(
                    c2,
                )->Some_0.queue.wf() && self.binding(c2)->Some_0.queue.capacity()
                    == TASK_QUEUE_CAPACITY by {
                    if c2 != c {
                        assert(self.binding(c2) == old(self).binding(c2));
                        assert(old(self).is_bound(c2));
                    }
                }
            }
        }
        Ok(())
    }

    /// Whether a task is bound to the given class.
    pub fn slot_is_bound(&self, c: EventClass) -> (r: bool)
        ensures
            r == self.is_bound(c),
    {
        match c {
            EventClass::RadioLine => self.radio_line.is_some(),
            EventClass::SerialByte => self.serial_byte.is_some(),
            EventClass::TimerTick => self.timer_tick.is_some(),
            EventClass::RadioIndication => self.radio_indication.is_some(),
            EventClass::MacEvent => self.mac_event.is_some(),
            EventClass::MacResponse => self.mac_response.is_some(),
        }
    }

    /// Routes one event into the queue of its class, from interrupt
    /// context: the event is enqueued when there is room, dropped and
    /// counted with `QueueFull` when the queue is full, and refused with
    /// `ConfigurationError` when no task is bound to its class. Never
    /// blocks and never retries.
    pub fn dispatch(&mut self, e: Event) -> (r: Result<(), CoreError>)
        requires
            old(self).is_bound(spec_class_of(e)) ==> old(self).drops(spec_class_of(e))
                < u64::MAX,
        ensures
            !old(self).is_bound(spec_class_of(e)) ==> r == Err::<(), CoreError>(
                CoreError::ConfigurationError,
            ) && *final(self) == *old(self),
            old(self).is_bound(spec_class_of(e)) ==> {
                let c = spec_class_of(e);
                &&& final(self).is_bound(c)
                &&& final(self).priority_of(c) == old(self).priority_of(c)
                &&& (final(self).contents(c), final(self).drops(c) as int) == offer(
                    old(self).contents(c),
                    old(self).drops(c) as int,
                    old(self).binding(c)->Some_0.queue.capacity() as int,
                    e,
                )
                &&& r == if old(self).contents(c).len() < old(self).binding(
                    c,
                )->Some_0.queue.capacity() {
                    Ok::<(), CoreError>(())
                } else {
                    Err::<(), CoreError>(CoreError::QueueFull)
                }
            },
            forall|other: EventClass|
                other != spec_class_of(e) ==> final(self).binding(other) == old(self).binding(
                    other,
                ),
            old(self).wf() ==> final(self).wf(),
    {
        let c = class_of(&e);
        let r = match c {
            EventClass::RadioLine => match &mut self.radio_line {
                Some(b) => b.queue.enqueue(e),
                None => Err(CoreError::ConfigurationError),
            },
            EventClass::SerialByte => match &mut self.serial_byte {
                Some(b) => b.queue.enqueue(e),
                None => Err(CoreError::ConfigurationError),
            },
            EventClass::TimerTick => match &mut self.timer_tick {
                Some(b) => b.queue.enqueue(e),
                None => Err(CoreError::ConfigurationError),
            },
            EventClass::RadioIndication => match &mut self.radio_indication {
                Some(b) => b.queue.enqueue(e),
                None => Err(CoreError::ConfigurationError),
            },
            EventClass::MacEvent => match &mut self.mac_event {
                Some(b) => b.queue.enqueue(e),
                None => Err(CoreError::ConfigurationError),
            },
            EventClass::MacResponse => match &mut self.mac_response {
                Some(b) => b.queue.enqueue(e),
                None => Err(CoreError::ConfigurationError),
            },
        };
        proof {
            assert(forall|other: EventClass|
                other != c ==> self.binding(other) == old(self).binding(other));
            if old(self).wf() {
                assert forall|c2: EventClass| #[trigger] self.is_bound(c2) implies self.binding(
                    c2,
                )->Some_0.queue.wf() && self.binding(c2)->Some_0.queue.capacity()
                    == TASK_QUEUE_CAPACITY by {
                    if c2 != c {
                        assert(self.binding(c2) == old(self).binding(c2));
                        assert(old(self).is_bound(c2));
                    } else {
                        assert(old(self).is_bound(c));
                    }
                }
            }
        }
        r
    }

    /// How many events wait in the class's queue; zero for an unbound
    /// class.
    pub fn queued_len(&self, c: EventClass) -> (n: usize)
        ensures
            n == self.queued(c),
    {
        match c {
            EventClass::RadioLine => match &self.radio_line {
                Some(b) => b.queue.len(),
                None => 0,
            },
            EventClass::SerialByte => match &self.serial_byte {
                Some(b) => b.queue.len(),
                None => 0,
            },
            EventClass::TimerTick => match &self.timer_tick {
                Some(b) => b.queue.len(),
                None => 0,
            },
            EventClass::RadioIndication => match &self.radio_indication {
                Some(b) => b.queue.len(),
                None => 0,
            },
            EventClass::MacEvent => match &self.mac_event {
                Some(b) => b.queue.len(),
                None => 0,
            },
            EventClass::MacResponse => match &self.mac_response {
                Some(b) => b.queue.len(),
                None => 0,
            },
        }
    }

    /// The priority of the task bound to the given class.
    pub fn task_priority(&self, c: EventClass) -> (p: u8)
        requires
            self.is_bound(c),
        ensures
            p == self.priority_of(c),
    {
        match c {
            EventClass::RadioLine => match &self.radio_line {
                Some(b) => b.priority,
                None => 0,
            },
            EventClass::SerialByte => match &self.serial_byte {
                Some(b) => b.priority,
                None => 0,
            },
            EventClass::TimerTick => match &self.timer_tick {
                Some(b) => b.priority,
                None => 0,
            },
            EventClass::RadioIndication => match &self.radio_indication {
                Some(b) => b.priority,
                None => 0,
            },
            EventClass::MacEvent => match &self.mac_event {
                Some(b) => b.priority,
                None => 0,
            },
            EventClass::MacResponse => match &self.mac_response {
                Some(b) => b.priority,
                None => 0,
            },
        }
    }

    /// Removes and returns the oldest event queued for the given class.
    fn dequeue_from(&mut self, c: EventClass) -> (r: Option<Event>)
        requires
            old(self).is_bound(c),
        ensures
            final(self).is_bound(c),
            final(self).priority_of(c) == old(self).priority_of(c),
            final(self).drops(c) == old(self).drops(c),
            old(self).contents(c).len() == 0 ==> r == Option::<Event>::None && *final(self)
                == *old(self),
            old(self).contents(c).len() > 0 ==> r == Option::Some(old(self).contents(c)[0])
                && final(self).contents(c) == old(self).contents(c).drop_first(),
            forall|other: EventClass|
                other != c ==> final(self).binding(other) == old(self).binding(other),
            old(self).wf() ==> final(self).wf(),
    {
        let r = match c {
            EventClass::RadioLine => match &mut self.radio_line {
                Some(b) => b.queue.dequeue(),
                None => None,
            },
            EventClass::SerialByte => match &mut self.serial_byte {
                Some(b) => b.queue.dequeue(),
                None => None,
            },
            EventClass::TimerTick => match &mut self.timer_tick {
                Some(b) => b.queue.dequeue(),
                None => None,
            },
            EventClass::RadioIndication => match &mut self.radio_indication {
                Some(b) => b.queue.dequeue(),
                None => None,
            },
            EventClass::MacEvent => match &mut self.mac_event {
                Some(b) => b.queue.dequeue(),
                None => None,
            },
            EventClass::MacResponse => match &mut self.mac_response {
                Some(b) => b.queue.dequeue(),
                None => None,
            },
        };
        proof {
            assert(forall|other: EventClass|
                other != c ==> self.binding(other) == old(self).binding(other));
            if old(self).wf() {
                assert forall|c2: EventClass| #[trigger] self.is_bound(c2) implies self.binding(
                    c2,
                )->Some_0.queue.wf() && self.binding(c2)->Some_0.queue.capacity()
                    == TASK_QUEUE_CAPACITY by {
                    if c2 != c {
                        assert(self.binding(c2) == old(self).binding(c2));
                        assert(old(self).is_bound(c2));
                    } else {
                        assert(old(self).is_bound(c));
                    }
                }
            }
        }
        r
    }

    /// Picks and removes the next event to run: the oldest event of a
    /// non-empty queue whose priority is highest, with equal priorities
    /// served in the fixed class-rank order. Returns nothing — and
    /// changes nothing — exactly when every queue is empty.
    pub fn pop_next(&mut self) -> (r: Option<(EventClass, Event)>)
        ensures
            r is None ==> (forall|c: EventClass| old(self).queued(c) == 0) && *final(self) == *old(
                self,
            ),
            r is Some ==> ({
                let c = r->Some_0.0;
                let e = r->Some_0.1;
                &&& old(self).queued(c) > 0
                &&& e == old(self).contents(c)[0]
                &&& final(self).is_bound(c)
                &&& final(self).contents(c) == old(self).contents(c).drop_first()
                &&& final(self).priority_of(c) == old(self).priority_of(c)
                &&& final(self).drops(c) == old(self).drops(c)
                &&& forall|other: EventClass|
                    other != c ==> final(self).binding(other) == old(self).binding(other)
                &&& forall|c2: EventClass|
                    c2 != c && old(self).queued(c2) > 0 ==> old(self).priority_of(c) > old(
                        self,
                    ).priority_of(c2) || (old(self).priority_of(c) == old(self).priority_of(c2)
                        && class_rank(c) < class_rank(c2))
            }),
            old(self).wf() ==> final(self).wf(),
    {
        let mut best: Option<EventClass> = None;
        let mut i: usize = 0;
        while i < 6
            invariant
                i <= 6,
                *self == *old(self),
                best is None ==> forall|c: EventClass|
                    class_rank(c) < i ==> self.queued(c) == 0,
                best matches Some(b) ==> class_rank(b) < i as int && self.queued(b) > 0
                    && self.is_bound(b) && forall|c: EventClass|
                    class_rank(c) < i as int && c != b && self.queued(c) > 0 ==> (
                    self.priority_of(b) > self.priority_of(c) || (self.priority_of(b)
                        == self.priority_of(c) && class_rank(b) < class_rank(c))),
            decreases 6 - i,
        {
            let c = class_of_rank(i);
            proof {
                assert forall|c2: EventClass| class_rank(c2) == i as int implies c2 == c by {}
            }
            if self.queued_len(c) > 0 {
                match best {
                    None => {
                        best = Some(c);
                    },
                    Some(bc) => {
                        if self.task_priority(c) > self.task_priority(bc) {
                            best = Some(c);
                        }
                    },
                }
            }
            i = i + 1;
        }
        proof {
            assert forall|c: EventClass| class_rank(c) < 6 by {}
        }
        match best {
            None => None,
            Some(bc) => {
                let popped = self.dequeue_from(bc);
                match popped {
                    Some(e) => Some((bc, e)),
                    None => None,
                }
            },
        }
    }
}

/// Advances the timeout multiplexer by one hardware tick and, exactly
/// when the timeout fires, routes the resulting `TimerFired` MAC event
/// into its bound task queue. `Ok(true)` means the timeout fired and the
/// event was enqueued; `Ok(false)` means no firing; a firing with no
/// task bound to MAC events is `ConfigurationError`, and one that meets
/// a full queue is dropped and counted as `QueueFull`.
pub fn deliver_timer_tick(d: &mut EventDispatcher, timer: &mut TimerContext) -> (r: Result<
    bool,
    CoreError,
>)
    requires
        old(timer).wf(),
        old(d).is_bound(EventClass::MacEvent) ==> old(d).drops(EventClass::MacEvent) < u64::MAX,
    ensures
        final(timer).wf(),
        *final(timer) == tick_step(*old(timer)).0,
        !tick_step(*old(timer)).1 ==> r == Ok::<bool, CoreError>(false) && *final(d) == *old(d),
        tick_step(*old(timer)).1 && !old(d).is_bound(EventClass::MacEvent) ==> r == Err::<
            bool,
            CoreError,
        >(CoreError::ConfigurationError) && *final(d) == *old(d),
        tick_step(*old(timer)).1 && old(d).is_bound(EventClass::MacEvent) ==> {
            let c = EventClass::MacEvent;
            let e = Event::MacEvent(MacEvent::TimerFired);
            &&& final(d).is_bound(c)
            &&& final(d).priority_of(c) == old(d).priority_of(c)
            &&& (final(d).contents(c), final(d).drops(c) as int) == offer(
                old(d).contents(c),
                old(d).drops(c) as int,
                old(d).binding(c)->Some_0.queue.capacity() as int,
                e,
            )
            &&& r == if old(d).contents(c).len() < old(d).binding(
                c,
            )->Some_0.queue.capacity() {
                Ok::<bool, CoreError>(true)
            } else {
                Err::<bool, CoreError>(CoreError::QueueFull)
            }
            &&& forall|other: EventClass|
                other != c ==> final(d).binding(other) == old(d).binding(other)
        },
        old(d).wf() ==> final(d).wf(),
{
    let fired = timer.tick();
    if fired {
        match d.dispatch(Event::MacEvent(MacEvent::TimerFired)) {
            Ok(()) => Ok(true),
            Err(e) => Err(e),
        }
    } else {
        Ok(false)
    }
}

} // verus!
