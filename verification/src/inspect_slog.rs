//! An inspection observer backed by `slog`: it threads the dispatch
//! milestones through a chain of scoped `slog` loggers, attaching each
//! nesting level's context as a structured key-value, the way `slog`'s
//! logger hierarchy is meant to be used. Emitting per-milestone records needs
//! `slog`'s macros, which verified code cannot hold; an embedding
//! application that wants eagerly written records pairs the machine with a
//! sink of its own built on the same milestones.

use vstd::prelude::*;

use slog::Discard;
use slog::Logger;
use slog::OwnedKV;
use slog::SingleKV;

use crate::events::FsmEvent;
use crate::inspect::Inspect;
use crate::inspect::InspectScope;
use crate::FsmError;

verus! {

/// A `slog::Logger`, held opaquely: Verus cannot declare the type itself
/// (its drain parameter carries an outside trait bound), so the logger is
/// carried through the library unexamined.
#[verifier::external_body]
pub struct SlogLogger {
    inner: Logger,
}

impl SlogLogger {
    /// Relies on slog::Logger::root with the discarding drain: a logger
    /// that drops every record.
    #[verifier::external_body]
    pub fn discard() -> SlogLogger {
        SlogLogger { inner: Logger::root(Discard, OwnedKV(())) }
    }
}

/// Relies on slog::Logger::new: a child logger with one more key-value of
/// context attached; the parent is unchanged.
#[verifier::external_body]
fn slog_child(logger: &SlogLogger, key: &'static str, value: u64) -> SlogLogger {
    SlogLogger { inner: logger.inner.new(OwnedKV(SingleKV::from((key, value)))) }
}

/// The key-value context a milestone attaches for an event.
fn event_context(ev: &FsmEvent) -> (kv: (&'static str, u64)) {
    match ev {
        FsmEvent::NoEvent => ("no_event", 0),
        FsmEvent::Timer(id) => ("timer_event", *id as u64),
        FsmEvent::Event(e) => ("event", e.discriminant as u64),
    }
}

/// The `slog`-backed observer: the current scoped logger carries the
/// accumulated context of the dispatch call being observed, and every
/// scoping milestone derives a child with that milestone's context.
pub struct InspectSlog {
    /// The root logger the observer was built over.
    pub logger: SlogLogger,
    /// The logger scoped to the milestone being observed; reset when a
    /// dispatch completes.
    pub scoped: SlogLogger,
}

impl InspectSlog {
    /// An observer over the given logger, or over the discarding logger
    /// when none is given. That the fallback is the discarding logger is
    /// not stated: the logger value carries an allocation, so no two calls
    /// of the fallback constructor yield one nameable value.
    pub fn new(logger: Option<SlogLogger>) -> (i: InspectSlog)
        ensures
            logger matches Some(l) ==> i.logger == l,
    {
        match logger {
            Some(l) => {
                let scoped = slog_child(&l, "dispatch", 0);
                InspectSlog { logger: l, scoped }
            },
            None => {
                let l = SlogLogger::discard();
                let scoped = slog_child(&l, "dispatch", 0);
                InspectSlog { logger: l, scoped }
            },
        }
    }
}

impl Inspect for InspectSlog {
    fn new_event(&mut self, scope: &InspectScope, ev: &FsmEvent) -> (s: InspectScope) {
        let kv = event_context(ev);
        self.scoped = slog_child(&self.logger, kv.0, kv.1);
        scope.deeper()
    }

    fn for_transition(&mut self, scope: &InspectScope, transition: usize) -> (s: InspectScope) {
        self.scoped = slog_child(&self.scoped, "transition", transition as u64);
        scope.deeper()
    }

    fn for_sub_machine(&mut self, scope: &InspectScope, machine: usize) -> (s: InspectScope) {
        self.scoped = slog_child(&self.scoped, "sub_fsm", machine as u64);
        scope.deeper()
    }

    fn for_timer(&mut self, scope: &InspectScope, timer: usize) -> (s: InspectScope) {
        self.scoped = slog_child(&self.scoped, "timer_id", timer as u64);
        scope.deeper()
    }

    fn on_guard(&mut self, scope: &InspectScope, transition: usize, guard_result: bool) {
        let value: u64 = if guard_result {
            1
        } else {
            0
        };
        self.scoped = slog_child(&self.scoped, "guard_result", value);
    }

    fn on_state_enter(&mut self, scope: &InspectScope, state: usize) {
        self.scoped = slog_child(&self.scoped, "entering", state as u64);
    }

    fn on_state_exit(&mut self, scope: &InspectScope, state: usize) {
        self.scoped = slog_child(&self.scoped, "exiting", state as u64);
    }

    fn on_action(&mut self, scope: &InspectScope, transition: usize) {
        self.scoped = slog_child(&self.scoped, "action", transition as u64);
    }

    fn on_error(&mut self, scope: &InspectScope, error: &FsmError) {
        let code: u64 = match error {
            FsmError::NoTransition => 1,
            FsmError::Interrupted => 2,
            FsmError::QueueOverCapacity => 3,
            FsmError::NotSupported => 4,
            FsmError::TimerNotStarted => 5,
        };
        self.scoped = slog_child(&self.scoped, "error", code);
    }

    fn event_done(&mut self, scope: InspectScope, states: &Vec<crate::sem::FsmCurrentState>) {
        self.scoped = slog_child(&self.logger, "dispatch", 0);
    }
}

} // verus!
