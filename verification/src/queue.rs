//! The event queue: a FIFO buffer of pending events with three
//! interchangeable backends sharing one capacity-checked contract — a
//! fixed-capacity backend, a growable backend, and a disabled backend.
//!
//! Draining order is first-in-first-served for every backend, and no backend
//! silently drops an event: an enqueue either stores the event or fails.

use vstd::prelude::*;

use crate::events::FsmEvent;
use crate::FsmError;
use crate::FsmResult;

verus! {

/// The capacity policy of a queue backend.
#[derive(Clone, Copy, Debug, PartialEq, Eq, Structural)]
pub enum QueueMode {
    /// Enqueue never fails for lack of room.
    Growable,
    /// Enqueue fails with `QueueOverCapacity` once the queue holds this many
    /// events.
    Bounded(usize),
    /// Every enqueue fails with `NotSupported`.
    Disabled,
}

/// What one enqueue does: the new queue contents, paired with the result
/// handed to the caller. The contents change exactly when the result is `Ok`.
pub open spec fn spec_enqueue(mode: QueueMode, q: Seq<FsmEvent>, ev: FsmEvent) -> (Seq<
    FsmEvent,
>, FsmResult<()>) {
    match mode {
        QueueMode::Growable => (q.push(ev), Ok(())),
        QueueMode::Bounded(cap) => if q.len() < cap {
            (q.push(ev), Ok(()))
        } else {
            (q, Err(FsmError::QueueOverCapacity))
        },
        QueueMode::Disabled => (q, Err(FsmError::NotSupported)),
    }
}

/// What one dequeue does: the served event, if any, and the remaining
/// contents. The oldest event is served first.
pub open spec fn spec_dequeue(q: Seq<FsmEvent>) -> (Option<FsmEvent>, Seq<FsmEvent>) {
    if q.len() == 0 {
        (None::<FsmEvent>, q)
    } else {
        (Some(q[0]), q.drop_first())
    }
}

/// The shared contract of the queue backends. The dispatch engine is generic
/// over it; each backend is characterised by its contents and its capacity
/// policy.
pub trait FsmEventQueue: Sized {
    /// The pending events, oldest first.
    spec fn contents(&self) -> Seq<FsmEvent>;

    /// The backend's capacity policy. It never changes over the queue's
    /// lifetime.
    spec fn mode(&self) -> QueueMode;

    /// Appends one event, or reports why it cannot.
    fn enqueue(&mut self, ev: FsmEvent) -> (r: FsmResult<()>)
        ensures
            final(self).mode() == old(self).mode(),
            (final(self).contents(), r) == spec_enqueue(old(self).mode(), old(self).contents(), ev),
    ;

    /// Removes and returns the oldest pending event.
    fn dequeue(&mut self) -> (r: Option<FsmEvent>)
        ensures
            final(self).mode() == old(self).mode(),
            (r, final(self).contents()) == spec_dequeue(old(self).contents()),
    ;

    /// The number of pending events.
    fn len(&self) -> (n: usize)
        ensures
            n == self.contents().len(),
    ;
}

/// The growable backend: enqueue never fails for lack of room. Suited to
/// hosted environments.
pub struct FsmEventQueueVec {
    events: Vec<FsmEvent>,
}

impl FsmEventQueueVec {
    /// An empty growable queue.
    pub fn new() -> (q: Self)
        ensures
            q.contents() == Seq::<FsmEvent>::empty(),
            q.mode() == QueueMode::Growable,
    {
        FsmEventQueueVec { events: Vec::new() }
    }
}

impl FsmEventQueue for FsmEventQueueVec {
    closed spec fn contents(&self) -> Seq<FsmEvent> {
        self.events@
    }

    closed spec fn mode(&self) -> QueueMode {
        QueueMode::Growable
    }

    fn enqueue(&mut self, ev: FsmEvent) -> (r: FsmResult<()>) {
        self.events.push(ev);
        Ok(())
    }

    fn dequeue(&mut self) -> (r: Option<FsmEvent>) {
        if self.events.len() == 0 {
            None
        } else {
            Some(self.events.remove(0))
        }
    }

    fn len(&self) -> (n: usize) {
        self.events.len()
    }
}

/// The fixed-capacity backend: enqueue fails once full. Deterministic, suited
/// to constrained targets.
pub struct FsmEventQueueArray {
    events: Vec<FsmEvent>,
    capacity: usize,
}

impl FsmEventQueueArray {
    /// An empty queue that will hold at most `capacity` events.
    pub fn new(capacity: usize) -> (q: Self)
        ensures
            q.contents() == Seq::<FsmEvent>::empty(),
            q.mode() == QueueMode::Bounded(capacity),
    {
        FsmEventQueueArray { events: Vec::new(), capacity }
    }
}

impl FsmEventQueue for FsmEventQueueArray {
    closed spec fn contents(&self) -> Seq<FsmEvent> {
        self.events@
    }

    closed spec fn mode(&self) -> QueueMode {
        QueueMode::Bounded(self.capacity)
    }

    fn enqueue(&mut self, ev: FsmEvent) -> (r: FsmResult<()>) {
        if self.events.len() < self.capacity {
            self.events.push(ev);
            Ok(())
        } else {
            Err(FsmError::QueueOverCapacity)
        }
    }

    fn dequeue(&mut self) -> (r: Option<FsmEvent>) {
        if self.events.len() == 0 {
            None
        } else {
            Some(self.events.remove(0))
        }
    }

    fn len(&self) -> (n: usize) {
        self.events.len()
    }
}

/// The disabled backend: every enqueue fails with `NotSupported`. Used when a
/// machine declares no asynchronous self-events.
pub struct FsmEventQueueNull {}

impl FsmEventQueueNull {
    /// The disabled queue.
    pub fn new() -> (q: Self)
        ensures
            q.contents() == Seq::<FsmEvent>::empty(),
            q.mode() == QueueMode::Disabled,
    {
        FsmEventQueueNull {  }
    }
}

impl FsmEventQueue for FsmEventQueueNull {
    closed spec fn contents(&self) -> Seq<FsmEvent> {
        Seq::empty()
    }

    closed spec fn mode(&self) -> QueueMode {
        QueueMode::Disabled
    }

    fn enqueue(&mut self, ev: FsmEvent) -> (r: FsmResult<()>) {
        Err(FsmError::NotSupported)
    }

    fn dequeue(&mut self) -> (r: Option<FsmEvent>) {
        None
    }

    fn len(&self) -> (n: usize) {
        0
    }
}

} // verus!
