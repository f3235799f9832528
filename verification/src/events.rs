//! The event model: a closed tagged union of domain events plus the two
//! synthetic variants (no-event and timer-expired), and the key by which the
//! transition table matches an event.

use vstd::prelude::*;

verus! {

/// A domain event: a discriminant identifying the event kind in the
/// machine's declaration, and one payload word that guards and actions may
/// read.
#[derive(Clone, Copy, Debug, PartialEq, Eq, Structural)]
pub struct DomainEvent {
    pub discriminant: usize,
    pub payload: u64,
}

/// One event consumed by a single dispatch pass. Created by the caller, or
/// synthesized by the engine (`NoEvent` on start) or by the timer subsystem
/// (`Timer` with the expired timer's id).
#[derive(Clone, Copy, Debug, PartialEq, Eq, Structural)]
pub enum FsmEvent {
    NoEvent,
    Timer(usize),
    Event(DomainEvent),
}

/// The lookup key of the transition table: transitions are declared against
/// the event discriminant, never against the payload.
#[derive(Clone, Copy, Debug, PartialEq, Eq, Structural)]
pub enum EventKey {
    OnNoEvent,
    OnTimer(usize),
    OnEvent(usize),
}

/// The key under which an event is matched against the transition table.
pub open spec fn key_of(ev: FsmEvent) -> EventKey {
    match ev {
        FsmEvent::NoEvent => EventKey::OnNoEvent,
        FsmEvent::Timer(id) => EventKey::OnTimer(id),
        FsmEvent::Event(e) => EventKey::OnEvent(e.discriminant),
    }
}

/// Computes the matching key of an event.
pub fn event_key(ev: &FsmEvent) -> (k: EventKey)
    ensures
        k == key_of(*ev),
{
    match ev {
        FsmEvent::NoEvent => EventKey::OnNoEvent,
        FsmEvent::Timer(id) => EventKey::OnTimer(*id),
        FsmEvent::Event(e) => EventKey::OnEvent(e.discriminant),
    }
}

} // verus!
