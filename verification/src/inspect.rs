//! The inspection chain: a composable observer invoked at every dispatch
//! milestone. Each scoping milestone returns a new scope record threaded
//! through the call, so nested sub-machine and timer dispatch is observed
//! with added context without leaking it back to the parent scope. An
//! observer never alters the dispatch outcome: the engine hands it ids and
//! events, nothing mutable.

use vstd::prelude::*;

use crate::events::FsmEvent;
use crate::sem::FsmCurrentState;
use crate::FsmError;

verus! {

/// The scope record threaded through one dispatch call: how deeply nested
/// the currently observed activity is. A new scoped record is produced at
/// each nesting milestone; none is persisted beyond the dispatch call.
#[derive(Clone, Copy, Debug, PartialEq, Eq, Structural)]
pub struct InspectScope {
    pub depth: usize,
}

impl InspectScope {
    /// The root scope of a dispatch call.
    pub fn root() -> (s: InspectScope)
        ensures
            s.depth == 0,
    {
        InspectScope { depth: 0 }
    }

    /// A scope one nesting level deeper. The depth saturates rather than
    /// wrap.
    pub fn deeper(&self) -> (s: InspectScope)
        ensures
            s.depth == if self.depth < usize::MAX {
                self.depth + 1
            } else {
                self.depth as int
            },
    {
        if self.depth < usize::MAX {
            InspectScope { depth: self.depth + 1 }
        } else {
            InspectScope { depth: self.depth }
        }
    }
}

/// The observer capability set, invoked by the dispatch engine at every
/// milestone, always in this relative order per dispatch call: `new_event`,
/// then per candidate transition `for_transition` / `for_sub_machine` /
/// `for_timer` and `on_guard`, then `on_state_exit`, `on_action`,
/// `on_state_enter`, `on_error` (only on failure) and finally `event_done`.
pub trait Inspect: Sized {
    /// Entering dispatch with an event; returns the scope the dispatch runs
    /// under.
    fn new_event(&mut self, scope: &InspectScope, ev: &FsmEvent) -> (s: InspectScope);

    /// A transition was matched; returns the scope its execution runs under.
    fn for_transition(&mut self, scope: &InspectScope, transition: usize) -> (s: InspectScope);

    /// Dispatch descends into a sub-machine; returns the nested scope.
    fn for_sub_machine(&mut self, scope: &InspectScope, machine: usize) -> (s: InspectScope);

    /// A triggered timer's event is about to be dispatched; returns the
    /// nested scope.
    fn for_timer(&mut self, scope: &InspectScope, timer: usize) -> (s: InspectScope);

    /// A guard was evaluated.
    fn on_guard(&mut self, scope: &InspectScope, transition: usize, guard_result: bool);

    /// A state's entry hook is run.
    fn on_state_enter(&mut self, scope: &InspectScope, state: usize);

    /// A state's exit hook is run.
    fn on_state_exit(&mut self, scope: &InspectScope, state: usize);

    /// A transition's action is run.
    fn on_action(&mut self, scope: &InspectScope, transition: usize);

    /// An error is about to be returned.
    fn on_error(&mut self, scope: &InspectScope, error: &FsmError);

    /// Dispatch of one event is complete, with the resulting root
    /// state vector; consumes the scoped record.
    fn event_done(&mut self, scope: InspectScope, states: &Vec<FsmCurrentState>);
}

/// The no-op observer.
pub struct InspectNull {}

impl InspectNull {
    pub fn new() -> (i: InspectNull) {
        InspectNull {  }
    }
}

impl Inspect for InspectNull {
    fn new_event(&mut self, scope: &InspectScope, ev: &FsmEvent) -> (s: InspectScope) {
        scope.deeper()
    }

    fn for_transition(&mut self, scope: &InspectScope, transition: usize) -> (s: InspectScope) {
        scope.deeper()
    }

    fn for_sub_machine(&mut self, scope: &InspectScope, machine: usize) -> (s: InspectScope) {
        scope.deeper()
    }

    fn for_timer(&mut self, scope: &InspectScope, timer: usize) -> (s: InspectScope) {
        scope.deeper()
    }

    fn on_guard(&mut self, scope: &InspectScope, transition: usize, guard_result: bool) {
    }

    fn on_state_enter(&mut self, scope: &InspectScope, state: usize) {
    }

    fn on_state_exit(&mut self, scope: &InspectScope, state: usize) {
    }

    fn on_action(&mut self, scope: &InspectScope, transition: usize) {
    }

    fn on_error(&mut self, scope: &InspectScope, error: &FsmError) {
    }

    fn event_done(&mut self, scope: InspectScope, states: &Vec<FsmCurrentState>) {
    }
}

/// One recorded milestone call.
#[derive(Clone, Debug, PartialEq, Eq)]
pub enum InspectRecord {
    NewEvent { depth: usize, ev: FsmEvent },
    ForTransition { depth: usize, transition: usize },
    ForSubMachine { depth: usize, machine: usize },
    ForTimer { depth: usize, timer: usize },
    OnGuard { depth: usize, transition: usize, guard_result: bool },
    StateEnter { depth: usize, state: usize },
    StateExit { depth: usize, state: usize },
    OnAction { depth: usize, transition: usize },
    OnError { depth: usize, error: FsmError },
    EventDone { depth: usize, states: Vec<FsmCurrentState> },
}

/// An observer that records every milestone call, in order, for test
/// assertions.
pub struct InspectRecorder {
    pub records: Vec<InspectRecord>,
}

impl InspectRecorder {
    pub fn new() -> (i: InspectRecorder)
        ensures
            i.records@ == Seq::<InspectRecord>::empty(),
    {
        InspectRecorder { records: Vec::new() }
    }

    /// The milestones recorded so far, oldest first.
    pub fn log(&self) -> &Vec<InspectRecord> {
        &self.records
    }
}

impl Inspect for InspectRecorder {
    fn new_event(&mut self, scope: &InspectScope, ev: &FsmEvent) -> (s: InspectScope) {
        self.records.push(InspectRecord::NewEvent { depth: scope.depth, ev: *ev });
        scope.deeper()
    }

    fn for_transition(&mut self, scope: &InspectScope, transition: usize) -> (s: InspectScope) {
        self.records.push(InspectRecord::ForTransition { depth: scope.depth, transition });
        scope.deeper()
    }

    fn for_sub_machine(&mut self, scope: &InspectScope, machine: usize) -> (s: InspectScope) {
        self.records.push(InspectRecord::ForSubMachine { depth: scope.depth, machine });
        scope.deeper()
    }

    fn for_timer(&mut self, scope: &InspectScope, timer: usize) -> (s: InspectScope) {
        self.records.push(InspectRecord::ForTimer { depth: scope.depth, timer });
        scope.deeper()
    }

    fn on_guard(&mut self, scope: &InspectScope, transition: usize, guard_result: bool) {
        self.records.push(
            InspectRecord::OnGuard { depth: scope.depth, transition, guard_result },
        );
    }

    fn on_state_enter(&mut self, scope: &InspectScope, state: usize) {
        self.records.push(InspectRecord::StateEnter { depth: scope.depth, state });
    }

    fn on_state_exit(&mut self, scope: &InspectScope, state: usize) {
        self.records.push(InspectRecord::StateExit { depth: scope.depth, state });
    }

    fn on_action(&mut self, scope: &InspectScope, transition: usize) {
        self.records.push(InspectRecord::OnAction { depth: scope.depth, transition });
    }

    fn on_error(&mut self, scope: &InspectScope, error: &FsmError) {
        self.records.push(InspectRecord::OnError { depth: scope.depth, error: *error });
    }

    fn event_done(&mut self, scope: InspectScope, states: &Vec<FsmCurrentState>) {
        self.records.push(
            InspectRecord::EventDone { depth: scope.depth, states: states.clone() },
        );
    }
}

/// Two observers invoked in order: composition of inspection backends.
pub struct InspectChain<A: Inspect, B: Inspect> {
    pub first: A,
    pub second: B,
}

impl<A: Inspect, B: Inspect> InspectChain<A, B> {
    pub fn new(first: A, second: B) -> (i: InspectChain<A, B>) {
        InspectChain { first, second }
    }
}

impl<A: Inspect, B: Inspect> Inspect for InspectChain<A, B> {
    fn new_event(&mut self, scope: &InspectScope, ev: &FsmEvent) -> (s: InspectScope) {
        let s = self.first.new_event(scope, ev);
        self.second.new_event(scope, ev);
        s
    }

    fn for_transition(&mut self, scope: &InspectScope, transition: usize) -> (s: InspectScope) {
        let s = self.first.for_transition(scope, transition);
        self.second.for_transition(scope, transition);
        s
    }

    fn for_sub_machine(&mut self, scope: &InspectScope, machine: usize) -> (s: InspectScope) {
        let s = self.first.for_sub_machine(scope, machine);
        self.second.for_sub_machine(scope, machine);
        s
    }

    fn for_timer(&mut self, scope: &InspectScope, timer: usize) -> (s: InspectScope) {
        let s = self.first.for_timer(scope, timer);
        self.second.for_timer(scope, timer);
        s
    }

    fn on_guard(&mut self, scope: &InspectScope, transition: usize, guard_result: bool) {
        self.first.on_guard(scope, transition, guard_result);
        self.second.on_guard(scope, transition, guard_result);
    }

    fn on_state_enter(&mut self, scope: &InspectScope, state: usize) {
        self.first.on_state_enter(scope, state);
        self.second.on_state_enter(scope, state);
    }

    fn on_state_exit(&mut self, scope: &InspectScope, state: usize) {
        self.first.on_state_exit(scope, state);
        self.second.on_state_exit(scope, state);
    }

    fn on_action(&mut self, scope: &InspectScope, transition: usize) {
        self.first.on_action(scope, transition);
        self.second.on_action(scope, transition);
    }

    fn on_error(&mut self, scope: &InspectScope, error: &FsmError) {
        self.first.on_error(scope, error);
        self.second.on_error(scope, error);
    }

    fn event_done(&mut self, scope: InspectScope, states: &Vec<FsmCurrentState>) {
        self.first.event_done(scope, states);
        self.second.event_done(scope, states);
    }
}

} // verus!
