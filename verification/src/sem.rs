//! The mathematical model of the dispatch engine: a `Model` value mirrors
//! the mutable half of a machine (current-state vector, state data, context,
//! sub-machine started flags, timers and the event queue), and a family of
//! spec functions defines, step by step, what one dispatch pass does to it.
//! Every contract of the executable engine is stated against these
//! functions.

use vstd::prelude::*;

use crate::defs::ActionOp;
use crate::defs::FsmDef;
use crate::defs::GuardDef;
use crate::defs::StateKind;
use crate::events::key_of;
use crate::events::FsmEvent;
use crate::queue::spec_enqueue;
use crate::queue::QueueMode;
use crate::timers::spec_create;
use crate::timers::CoreTimer;
use crate::FsmError;

verus! {

/// One slot of the current-state vector. A machine built by the engine
/// already holds each region's declared initial state; `Stopped` is the
/// idle slot value, treated by dispatch as matching nothing.
#[derive(Clone, Copy, Debug, PartialEq, Eq, Structural)]
pub enum FsmCurrentState {
    Stopped,
    State(usize),
}

/// The mutable half of a machine, as mathematical values. The definition
/// tables are carried alongside and never change.
pub struct Model {
    /// One slot per declared region, across all machines.
    pub current: Seq<FsmCurrentState>,
    /// The persistent data words of every declared state.
    pub store: Seq<Seq<u64>>,
    /// The context words shared by the whole machine.
    pub context: Seq<u64>,
    /// One started flag per machine; a started sub-machine holds its history.
    pub started: Seq<bool>,
    /// The armed countdown of every declared timer id.
    pub timers: Seq<Option<CoreTimer>>,
    /// The pending events of the queue, oldest first.
    pub queue: Seq<FsmEvent>,
    /// The queue backend's capacity policy.
    pub qmode: QueueMode,
}

/// The machine's structural invariant: every slot of the mutable half has
/// the size and range the definition declares. Constructors establish it;
/// every engine operation preserves it.
pub open spec fn inv(def: FsmDef, m: Model) -> bool {
    &&& crate::defs::wf_def(def)
    &&& m.current.len() == def.regions@.len()
    &&& (forall|r: int|
        0 <= r < m.current.len() ==> match #[trigger] m.current[r] {
            FsmCurrentState::Stopped => true,
            FsmCurrentState::State(s) => s < def.states@.len() && def.states@[s as int].region
                == r,
        })
    &&& m.store.len() == def.states@.len()
    &&& (forall|s: int| 0 <= s < m.store.len() ==> m.store[s].len() == def.states@[s].data_len)
    &&& m.context.len() == def.context_len
    &&& m.started.len() == def.machine_count
    &&& m.timers.len() == def.timers@.len()
}

pub open spec fn with_current(m: Model, current: Seq<FsmCurrentState>) -> Model {
    Model { current, store: m.store, context: m.context, started: m.started, timers: m.timers, queue: m.queue, qmode: m.qmode }
}

pub open spec fn with_store(m: Model, store: Seq<Seq<u64>>) -> Model {
    Model { current: m.current, store, context: m.context, started: m.started, timers: m.timers, queue: m.queue, qmode: m.qmode }
}

pub open spec fn with_context(m: Model, context: Seq<u64>) -> Model {
    Model { current: m.current, store: m.store, context, started: m.started, timers: m.timers, queue: m.queue, qmode: m.qmode }
}

pub open spec fn with_started(m: Model, started: Seq<bool>) -> Model {
    Model { current: m.current, store: m.store, context: m.context, started, timers: m.timers, queue: m.queue, qmode: m.qmode }
}

pub open spec fn with_timers(m: Model, timers: Seq<Option<CoreTimer>>) -> Model {
    Model { current: m.current, store: m.store, context: m.context, started: m.started, timers, queue: m.queue, qmode: m.qmode }
}

pub open spec fn with_queue(m: Model, queue: Seq<FsmEvent>) -> Model {
    Model { current: m.current, store: m.store, context: m.context, started: m.started, timers: m.timers, queue, qmode: m.qmode }
}

/// Saturating addition on data words.
pub open spec fn sat_add(a: u64, b: u64) -> u64 {
    if a + b > u64::MAX {
        u64::MAX
    } else {
        (a + b) as u64
    }
}

/// The payload a guard or action reads from an event: the payload word of a
/// domain event, zero for the synthetic variants.
pub open spec fn payload_of(ev: FsmEvent) -> u64 {
    match ev {
        FsmEvent::Event(e) => e.payload,
        FsmEvent::NoEvent => 0,
        FsmEvent::Timer(_) => 0,
    }
}

/// Whether a guard lets a transition fire. Guards read the event, the
/// context and the data of any declared state; they mutate nothing.
pub open spec fn guard_passes(def: FsmDef, m: Model, g: GuardDef, ev: FsmEvent) -> bool {
    match g {
        GuardDef::Always => true,
        GuardDef::PayloadEquals(v) => payload_of(ev) == v,
        GuardDef::PayloadAtLeast(v) => payload_of(ev) >= v,
        GuardDef::StateDataAtLeast { state, index, min } => m.store[state as int][index as int]
            >= min,
        GuardDef::ContextEquals { index, value } => m.context[index as int] == value,
        GuardDef::ContextAtLeast { index, min } => m.context[index as int] >= min,
    }
}

/// One action step applied to the model, with the error it reports, if any.
/// Only an enqueue can fail; the failure is the queue backend's.
pub open spec fn apply_op(def: FsmDef, m: Model, op: ActionOp, ev: FsmEvent) -> (
    Model,
    Option<FsmError>,
) {
    match op {
        ActionOp::IncStateData { state, index } => (
            with_store(
                m,
                m.store.update(
                    state as int,
                    m.store[state as int].update(
                        index as int,
                        sat_add(m.store[state as int][index as int], 1),
                    ),
                ),
            ),
            None::<FsmError>,
        ),
        ActionOp::AddPayloadToStateData { state, index } => (
            with_store(
                m,
                m.store.update(
                    state as int,
                    m.store[state as int].update(
                        index as int,
                        sat_add(m.store[state as int][index as int], payload_of(ev)),
                    ),
                ),
            ),
            None::<FsmError>,
        ),
        ActionOp::SetStateData { state, index, value } => (
            with_store(
                m,
                m.store.update(state as int, m.store[state as int].update(index as int, value)),
            ),
            None::<FsmError>,
        ),
        ActionOp::IncContext { index } => (
            with_context(m, m.context.update(index as int, sat_add(m.context[index as int], 1))),
            None::<FsmError>,
        ),
        ActionOp::AddPayloadToContext { index } => (
            with_context(
                m,
                m.context.update(index as int, sat_add(m.context[index as int], payload_of(ev))),
            ),
            None::<FsmError>,
        ),
        ActionOp::SetContext { index, value } => (
            with_context(m, m.context.update(index as int, value)),
            None::<FsmError>,
        ),
        ActionOp::EnqueueEvent(e) => {
            let qr = spec_enqueue(m.qmode, m.queue, e);
            match qr.1 {
                Ok(u) => (with_queue(m, qr.0), None::<FsmError>),
                Err(err) => (m, Some(err)),
            }
        },
    }
}

/// A hook or action, run step by step from `i`. The first failing step
/// aborts the rest; earlier mutations persist (a single pass, no rollback).
pub open spec fn apply_ops_from(
    def: FsmDef,
    m: Model,
    ops: Seq<ActionOp>,
    ev: FsmEvent,
    i: int,
) -> (Model, Option<FsmError>)
    decreases ops.len() - i,
{
    if i < 0 || i >= ops.len() {
        (m, None::<FsmError>)
    } else {
        let step = apply_op(def, m, ops[i], ev);
        match step.1 {
            Some(e) => (step.0, Some(e)),
            None => apply_ops_from(def, step.0, ops, ev, i + 1),
        }
    }
}

pub open spec fn apply_ops(def: FsmDef, m: Model, ops: Seq<ActionOp>, ev: FsmEvent) -> (
    Model,
    Option<FsmError>,
) {
    apply_ops_from(def, m, ops, ev, 0)
}

/// Cancels, on state exit, every timer of the state that was declared with
/// `cancel_on_state_exit`.
pub open spec fn cancel_exit_timers(def: FsmDef, m: Model, ids: Seq<usize>, i: int) -> Model
    decreases ids.len() - i,
{
    if i < 0 || i >= ids.len() {
        m
    } else {
        let id = ids[i];
        let m2 = if id < def.timers@.len() && def.timers@[id as int].settings.cancel_on_state_exit {
            with_timers(m, m.timers.update(id as int, None::<CoreTimer>))
        } else {
            m
        };
        cancel_exit_timers(def, m2, ids, i + 1)
    }
}

/// Creates, on state entry, every timer the state declares, replacing any
/// countdown already armed at the same id.
pub open spec fn create_entry_timers(def: FsmDef, m: Model, ids: Seq<usize>, i: int) -> Model
    decreases ids.len() - i,
{
    if i < 0 || i >= ids.len() {
        m
    } else {
        let id = ids[i];
        let m2 = if id < def.timers@.len() {
            with_timers(m, m.timers.update(id as int, spec_create(def.timers@[id as int].settings)))
        } else {
            m
        };
        create_entry_timers(def, m2, ids, i + 1)
    }
}

/// The first declared transition from `t` onward that matches: declared on
/// the source state, keyed by the event's discriminant, with a passing (or
/// absent) guard.
pub open spec fn find_transition(def: FsmDef, m: Model, s: int, ev: FsmEvent, t: int) -> Option<
    int,
>
    decreases def.transitions@.len() - t,
{
    if t < 0 || t >= def.transitions@.len() {
        None::<int>
    } else if def.transitions@[t].source == s && def.transitions@[t].trigger == key_of(ev)
        && guard_passes(def, m, def.transitions@[t].guard, ev) {
        Some(t)
    } else {
        find_transition(def, m, s, ev, t + 1)
    }
}

/// Whether machine `mach` is blocked for this event: some region of the
/// machine sits in an interrupt state whose resume whitelist does not hold
/// the event's key.
pub open spec fn is_interrupted(def: FsmDef, m: Model, mach: int, ev: FsmEvent) -> bool {
    exists|r: int|
        {
            &&& 0 <= r < def.regions@.len()
            &&& def.regions@[r].machine == mach
            &&& #[trigger] m.current[r] matches FsmCurrentState::State(s)
            &&& def.states@[s as int].interrupt matches Some(wl)
            &&& !wl@.contains(key_of(ev))
        }
}

/// A dispatch result reduced to its hard error: `NoTransition` is
/// informational and is not propagated across nesting levels.
pub open spec fn hard_err(r: Result<(), FsmError>) -> Option<FsmError> {
    match r {
        Ok(u) => None::<FsmError>,
        Err(FsmError::NoTransition) => None::<FsmError>,
        Err(e) => Some(e),
    }
}

/// The index a sub-machine slot embeds, when the definition is well formed
/// enough for it to be usable as a recursion target.
pub open spec fn sub_machine_of(def: FsmDef, s: int, mach: int) -> Option<int> {
    match def.states@[s].kind {
        StateKind::SubMachine(sm) => if mach < sm < def.machine_count {
            Some(sm as int)
        } else {
            None::<int>
        },
        StateKind::Normal => None::<int>,
    }
}

/// Leaving state `s`: its exit hook runs, its `cancel_on_state_exit` timers
/// are cancelled, and a started embedded sub-machine is exited recursively
/// (its history is kept).
pub open spec fn exit_state(def: FsmDef, m: Model, s: int, ev: FsmEvent) -> (
    Model,
    Option<FsmError>,
)
    decreases def.machine_count - machine_of_state_c(def, s), 1int, 0int,
{
    let hook = apply_ops(def, m, def.states@[s].exit@, ev);
    match hook.1 {
        Some(e) => (hook.0, Some(e)),
        None => {
            let m2 = cancel_exit_timers(def, hook.0, def.states@[s].timers@, 0);
            match sub_machine_of(def, s, machine_of_state_c(def, s)) {
                Some(sm) => if 0 <= sm < m2.started.len() && m2.started[sm] {
                    exit_regions(def, m2, sm, 0)
                } else {
                    (m2, None::<FsmError>)
                },
                None => (m2, None::<FsmError>),
            }
        },
    }
}

/// `machine_of_state`, clamped so that it can serve as a termination
/// measure on any input.
pub open spec fn machine_of_state_c(def: FsmDef, s: int) -> int {
    let mach = crate::defs::machine_of_state(def, s);
    if 0 <= mach < def.machine_count {
        mach
    } else {
        0
    }
}

/// Exits, in declared region order, the current state of every region of
/// machine `mach`, leaving the current-state vector unchanged. Used for
/// `stop` and for leaving a sub-machine slot.
pub open spec fn exit_regions(def: FsmDef, m: Model, mach: int, i: int) -> (
    Model,
    Option<FsmError>,
)
    decreases def.machine_count - mach, 2int, def.regions@.len() - i,
{
    if i < 0 || i >= def.regions@.len() || !(0 <= mach < def.machine_count) {
        (m, None::<FsmError>)
    } else if def.regions@[i].machine == mach && (m.current[i] matches FsmCurrentState::State(s)
        && 0 <= s < def.states@.len() && machine_of_state_c(def, s as int) == mach) {
        let s = m.current[i]->State_0;
        let step = exit_state(def, m, s as int, FsmEvent::NoEvent);
        match step.1 {
            Some(e) => (step.0, Some(e)),
            None => exit_regions(def, step.0, mach, i + 1),
        }
    } else {
        exit_regions(def, m, mach, i + 1)
    }
}

/// Entering state `s`: its entry hook runs, its declared timers are
/// created, and an embedded sub-machine is started (fresh entry) or
/// re-entered (history resume) recursively.
pub open spec fn enter_state(def: FsmDef, m: Model, s: int, ev: FsmEvent) -> (
    Model,
    Option<FsmError>,
)
    decreases def.machine_count - machine_of_state_c(def, s), 4int, 0int,
{
    let hook = apply_ops(def, m, def.states@[s].entry@, ev);
    match hook.1 {
        Some(e) => (hook.0, Some(e)),
        None => {
            let m2 = create_entry_timers(def, hook.0, def.states@[s].timers@, 0);
            match sub_machine_of(def, s, machine_of_state_c(def, s)) {
                Some(sm) => if 0 <= sm < m2.started.len() && m2.started[sm] {
                    enter_regions(def, m2, sm, 0)
                } else {
                    start_sub_machine(def, m2, sm)
                },
                None => (m2, None::<FsmError>),
            }
        },
    }
}

/// Re-enters, in declared region order, the current state of every region
/// of machine `mach`: the history-resume path into a started sub-machine.
pub open spec fn enter_regions(def: FsmDef, m: Model, mach: int, i: int) -> (
    Model,
    Option<FsmError>,
)
    decreases def.machine_count - mach, 5int, def.regions@.len() - i,
{
    if i < 0 || i >= def.regions@.len() || !(0 <= mach < def.machine_count) {
        (m, None::<FsmError>)
    } else if def.regions@[i].machine == mach && (m.current[i] matches FsmCurrentState::State(s)
        && 0 <= s < def.states@.len() && machine_of_state_c(def, s as int) == mach) {
        let s = m.current[i]->State_0;
        let step = enter_state(def, m, s as int, FsmEvent::NoEvent);
        match step.1 {
            Some(e) => (step.0, Some(e)),
            None => enter_regions(def, step.0, mach, i + 1),
        }
    } else {
        enter_regions(def, m, mach, i + 1)
    }
}

/// One region's part of a dispatch pass. A region whose current state is a
/// started sub-machine slot first offers the event to the sub-machine; only
/// when no sub-machine transition matches are the slot state's own
/// transitions tried.
pub open spec fn region_step(def: FsmDef, m: Model, r: int, ev: FsmEvent) -> (
    Model,
    Result<(), FsmError>,
)
    decreases def.machine_count - region_machine_c(def, r), 7int, 0int,
{
    match m.current[r] {
        FsmCurrentState::Stopped => (m, Err(FsmError::NoTransition)),
        FsmCurrentState::State(s) => {
            if !(0 <= s < def.states@.len() && machine_of_state_c(def, s as int)
                == region_machine_c(def, r)) {
                (m, Err(FsmError::NoTransition))
            } else {
                let sub = sub_machine_of(def, s as int, region_machine_c(def, r));
                let routed = match sub {
                    Some(sm) => if 0 <= sm < m.started.len() && m.started[sm] {
                        dispatch_machine(def, m, sm, ev)
                    } else {
                        (m, Err(FsmError::NoTransition))
                    },
                    None => (m, Err(FsmError::NoTransition)),
                };
                if !(routed.1 == Err::<(), FsmError>(FsmError::NoTransition)) {
                    routed
                } else {
                    let m1 = routed.0;
                    match find_transition(def, m1, s as int, ev, 0) {
                        None => (m1, Err(FsmError::NoTransition)),
                        Some(t) => run_transition(def, m1, r, t, ev),
                    }
                }
            }
        },
    }
}

/// The region's machine, clamped as a termination measure.
pub open spec fn region_machine_c(def: FsmDef, r: int) -> int {
    if 0 <= r < def.regions@.len() && def.regions@[r].machine < def.machine_count {
        def.regions@[r].machine as int
    } else {
        0
    }
}

/// Executes a matched transition for region `r`: exit hook (unless
/// internal), action, sub-machine start or target entry hook (unless
/// internal), then the region's current-state slot moves to the target.
/// A failing step aborts the rest of the sequence; mutations already made
/// persist, and the region reports the error.
pub open spec fn run_transition(def: FsmDef, m: Model, r: int, t: int, ev: FsmEvent) -> (
    Model,
    Result<(), FsmError>,
)
    decreases def.machine_count - region_machine_c(def, r), 6int, 0int,
{
    let tr = def.transitions@[t];
    if tr.internal {
        let acted = apply_ops(def, m, tr.action@, ev);
        match acted.1 {
            Some(e) => (acted.0, Err(e)),
            None => (acted.0, Ok(())),
        }
    } else {
        let s = tr.source as int;
        let exited = exit_state(def, m, s, ev);
        match exited.1 {
            Some(e) => (exited.0, Err(e)),
            None => {
                let acted = apply_ops(def, exited.0, tr.action@, ev);
                match acted.1 {
                    Some(e) => (acted.0, Err(e)),
                    None => {
                        let entered = enter_target(def, acted.0, t, ev, region_machine_c(def, r));
                        match entered.1 {
                            Some(e) => (
                                with_current(
                                    entered.0,
                                    entered.0.current.update(
                                        r,
                                        FsmCurrentState::State(tr.target),
                                    ),
                                ),
                                Err(e),
                            ),
                            None => (
                                with_current(
                                    entered.0,
                                    entered.0.current.update(
                                        r,
                                        FsmCurrentState::State(tr.target),
                                    ),
                                ),
                                Ok(()),
                            ),
                        }
                    },
                }
            },
        }
    }
}

/// The entry half of an external transition. A fresh (non-history) move
/// into a sub-machine slot runs the sub-machine's start in place of the
/// slot's generic entry hook; every other move runs the target's entry
/// hook.
pub open spec fn enter_target(def: FsmDef, m: Model, t: int, ev: FsmEvent, mach: int) -> (
    Model,
    Option<FsmError>,
)
    decreases def.machine_count - mach, 5int, 1int,
{
    let tr = def.transitions@[t];
    let sub = sub_machine_of(def, tr.target as int, mach);
    match sub {
        Some(sm) => if !tr.shallow_history {
            start_sub_machine_m(def, m, sm, mach)
        } else {
            enter_state_if_same_machine(def, m, tr.target as int, ev, mach)
        },
        None => enter_state_if_same_machine(def, m, tr.target as int, ev, mach),
    }
}

/// `enter_state`, guarded so that the termination measure is visible at the
/// call site: the target belongs to the machine being dispatched.
pub open spec fn enter_state_if_same_machine(
    def: FsmDef,
    m: Model,
    s: int,
    ev: FsmEvent,
    mach: int,
) -> (Model, Option<FsmError>)
    decreases def.machine_count - mach, 5int, 0int,
{
    if machine_of_state_c(def, s) == mach {
        enter_state(def, m, s, ev)
    } else {
        (m, None::<FsmError>)
    }
}

/// Starting a sub-machine from a parent at `mach`: guarded recursion
/// target.
pub open spec fn start_sub_machine_m(def: FsmDef, m: Model, sm: int, mach: int) -> (
    Model,
    Option<FsmError>,
)
    decreases def.machine_count - mach, 4int, 1int,
{
    if mach < sm < def.machine_count {
        start_sub_machine(def, m, sm)
    } else {
        (m, None::<FsmError>)
    }
}

/// Starts an embedded machine: mark it started, move every region to its
/// initial state and run the entry hooks, then run one `NoEvent` pass so
/// that eventless transitions declared from the initial states resolve.
pub open spec fn start_sub_machine(def: FsmDef, m: Model, sm: int) -> (Model, Option<FsmError>)
    decreases def.machine_count - sm, 10int, 0int,
{
    if !(0 <= sm < def.machine_count) {
        (m, None::<FsmError>)
    } else {
        let m1 = with_started(m, m.started.update(sm, true));
        let begun = start_regions(def, m1, sm, 0);
        match begun.1 {
            Some(e) => (begun.0, Some(e)),
            None => {
                let pass = dispatch_machine(def, begun.0, sm, FsmEvent::NoEvent);
                (pass.0, hard_err(pass.1))
            },
        }
    }
}

/// Moves every region of machine `mach` to its initial state and runs the
/// initial state's entry hook, in declared region order.
pub open spec fn start_regions(def: FsmDef, m: Model, mach: int, i: int) -> (
    Model,
    Option<FsmError>,
)
    decreases def.machine_count - mach, 9int, def.regions@.len() - i,
{
    if i < 0 || i >= def.regions@.len() || !(0 <= mach < def.machine_count) {
        (m, None::<FsmError>)
    } else if def.regions@[i].machine == mach && def.regions@[i].initial < def.states@.len()
        && machine_of_state_c(def, def.regions@[i].initial as int) == mach {
        let s0 = def.regions@[i].initial;
        let m1 = with_current(m, m.current.update(i, FsmCurrentState::State(s0)));
        let step = enter_state(def, m1, s0 as int, FsmEvent::NoEvent);
        match step.1 {
            Some(e) => (step.0, Some(e)),
            None => start_regions(def, step.0, mach, i + 1),
        }
    } else {
        start_regions(def, m, mach, i + 1)
    }
}

/// Folds `region_step` over the regions of machine `mach`, in declared
/// order, every region evaluated. Returns the model, whether some region
/// matched, and the first hard (non-`NoTransition`) error.
pub open spec fn dispatch_regions(def: FsmDef, m: Model, mach: int, ev: FsmEvent, i: int) -> (
    Model,
    bool,
    Option<FsmError>,
)
    decreases def.machine_count - mach, 8int, def.regions@.len() - i,
{
    if i < 0 || i >= def.regions@.len() || !(0 <= mach < def.machine_count) {
        (m, false, None::<FsmError>)
    } else if def.regions@[i].machine == mach && region_machine_c(def, i) == mach {
        let step = region_step(def, m, i, ev);
        let rest = dispatch_regions(def, step.0, mach, ev, i + 1);
        let saw_ok = rest.1 || step.1 is Ok;
        let first_hard = match hard_err(step.1) {
            Some(e) => Some(e),
            None => rest.2,
        };
        (rest.0, saw_ok, first_hard)
    } else {
        dispatch_regions(def, m, mach, ev, i + 1)
    }
}

/// One dispatch pass of one event at machine `mach`: the interrupt check,
/// then every region's transition matching and execution, then the
/// aggregation — the first hard error in declared region order wins, else
/// success if at least one region matched, else `NoTransition`. An
/// interrupted dispatch mutates nothing.
pub open spec fn dispatch_machine(def: FsmDef, m: Model, mach: int, ev: FsmEvent) -> (
    Model,
    Result<(), FsmError>,
)
    decreases def.machine_count - mach, 9int, def.regions@.len() + 1,
{
    if !(0 <= mach < def.machine_count) {
        (m, Err(FsmError::NoTransition))
    } else if is_interrupted(def, m, mach, ev) {
        (m, Err(FsmError::Interrupted))
    } else {
        let folded = dispatch_regions(def, m, mach, ev, 0);
        let result = match folded.2 {
            Some(e) => Err(e),
            None => if folded.1 {
                Ok(())
            } else {
                Err(FsmError::NoTransition)
            },
        };
        (folded.0, result)
    }
}

/// One single-pass dispatch of one event at the root machine: the engine's
/// core step, before any queue draining.
pub open spec fn spec_dispatch_one(def: FsmDef, m: Model, ev: FsmEvent) -> (
    Model,
    Result<(), FsmError>,
) {
    dispatch_machine(def, m, 0, ev)
}

/// Draining the queue: serve the oldest event, dispatch it (its individual
/// result is observable through inspection only), and continue for as long
/// as the fuel and the queue last. The executable drain loop runs until the
/// queue is empty; its contract supplies the fuel.
pub open spec fn spec_drain(def: FsmDef, m: Model, fuel: nat) -> Model
    decreases fuel,
{
    if fuel == 0 || m.queue.len() == 0 {
        m
    } else {
        let ev = m.queue[0];
        let m1 = with_queue(m, m.queue.drop_first());
        let step = dispatch_machine(def, m1, 0, ev);
        spec_drain(def, step.0, (fuel - 1) as nat)
    }
}

/// The engine's drain budget: a drain loop serves at most this many queued
/// events in one call, the practical equivalent of "until the queue is
/// empty" that keeps the engine provably terminating even when actions keep
/// enqueueing.
pub open spec fn drain_budget() -> nat {
    u64::MAX as nat
}

/// A full dispatch call: optional pre-drain of the queue, the single
/// dispatch pass whose result is returned, then optional post-drain.
pub open spec fn spec_dispatch_full(def: FsmDef, m: Model, ev: FsmEvent, pre: bool, post: bool) -> (
    Model,
    Result<(), FsmError>,
) {
    let m1 = if pre {
        spec_drain(def, m, drain_budget())
    } else {
        m
    };
    let step = spec_dispatch_one(def, m1, ev);
    let m2 = if post {
        spec_drain(def, step.0, drain_budget())
    } else {
        step.0
    };
    (m2, step.1)
}

/// The first half of starting the machine: mark the root machine started
/// and move every root region to its entered initial state. The engine then
/// resolves eventless transitions with repeated `NoEvent` passes
/// (`spec_anon_passes`).
pub open spec fn spec_start_root(def: FsmDef, m: Model) -> (Model, Option<FsmError>) {
    let m1 = with_started(m, m.started.update(0, true));
    start_regions(def, m1, 0, 0)
}

/// The timer sweep: pop one pending fired id after another (the buffer
/// serves from its back), dispatch the synthesized timeout event at the
/// machine owning the timer, and continue until no id remains or a hard
/// error surfaces. A timeout event with no matching transition is
/// informational, as everywhere.
pub open spec fn spec_timer_sweep(def: FsmDef, m: Model, pending: Seq<usize>) -> (
    Model,
    Seq<usize>,
    Option<FsmError>,
)
    decreases pending.len(),
{
    if pending.len() == 0 {
        (m, pending, None::<FsmError>)
    } else {
        let id = pending.last();
        let rest = pending.drop_last();
        let mach = if id < def.timers@.len() {
            def.timers@[id as int].machine as int
        } else {
            0
        };
        let step = dispatch_machine(def, m, mach, FsmEvent::Timer(id));
        match hard_err(step.1) {
            Some(e) => (step.0, rest, Some(e)),
            None => spec_timer_sweep(def, step.0, rest),
        }
    }
}

/// Repeated `NoEvent` passes resolving anonymous (eventless) transitions:
/// the pass is repeated until it reports that no further eventless
/// transition fires. The boolean says whether the fuel sufficed.
pub open spec fn spec_anon_passes(def: FsmDef, m: Model, fuel: nat) -> (Model, bool)
    decreases fuel,
{
    if fuel == 0 {
        (m, false)
    } else {
        let step = dispatch_machine(def, m, 0, FsmEvent::NoEvent);
        if step.1 is Ok {
            spec_anon_passes(def, step.0, (fuel - 1) as nat)
        } else {
            (step.0, true)
        }
    }
}

/// The per-region state vector of the root machine, in declared region
/// order.
pub open spec fn spec_current_states(def: FsmDef, m: Model, i: int) -> Seq<FsmCurrentState>
    decreases def.regions@.len() - i,
{
    if i < 0 || i >= def.regions@.len() {
        Seq::<FsmCurrentState>::empty()
    } else if def.regions@[i].machine == 0 {
        seq![m.current[i]] + spec_current_states(def, m, i + 1)
    } else {
        spec_current_states(def, m, i + 1)
    }
}

} // verus!
