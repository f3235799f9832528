//! The library's laws: properties of the dispatch semantics that hold for
//! every machine, stated over the spec functions of [`crate::sem`] and
//! proved once and for all. The executable engine's contracts tie every run
//! to those spec functions, so these laws carry over to every machine
//! instance.

use vstd::prelude::*;

use crate::defs::FsmDef;
use crate::defs::StateKind;
use crate::events::FsmEvent;
use crate::sem::apply_op;
use crate::sem::apply_ops;
use crate::sem::apply_ops_from;
use crate::sem::dispatch_machine;
use crate::sem::dispatch_regions;
use crate::sem::enter_regions;
use crate::sem::enter_state;
use crate::sem::enter_target;
use crate::sem::exit_regions;
use crate::sem::exit_state;
use crate::sem::find_transition;
use crate::sem::hard_err;
use crate::sem::inv;
use crate::sem::is_interrupted;
use crate::sem::machine_of_state_c;
use crate::sem::region_machine_c;
use crate::sem::region_step;
use crate::sem::run_transition;
use crate::sem::start_regions;
use crate::sem::start_sub_machine;
use crate::sem::with_current;
use crate::sem::FsmCurrentState;
use crate::sem::Model;
use crate::defs::ActionOp;
use crate::FsmError;

verus! {

/// An action step never touches the current-state vector, the started
/// flags or the timers, and the only errors it can report are the queue's.
pub proof fn lemma_apply_op_frame(def: FsmDef, m: Model, op: ActionOp, ev: FsmEvent)
    ensures
        apply_op(def, m, op, ev).0.current == m.current,
        apply_op(def, m, op, ev).0.started == m.started,
        apply_op(def, m, op, ev).0.timers == m.timers,
        apply_op(def, m, op, ev).0.qmode == m.qmode,
        apply_op(def, m, op, ev).1 matches Some(e) ==> e == FsmError::QueueOverCapacity || e
            == FsmError::NotSupported,
{
}

/// A hook or action never touches the current-state vector, the started
/// flags or the timers, and the only errors it can report are the queue's.
pub proof fn lemma_apply_ops_frame(def: FsmDef, m: Model, ops: Seq<ActionOp>, ev: FsmEvent, i: int)
    ensures
        apply_ops_from(def, m, ops, ev, i).0.current == m.current,
        apply_ops_from(def, m, ops, ev, i).0.started == m.started,
        apply_ops_from(def, m, ops, ev, i).0.timers == m.timers,
        apply_ops_from(def, m, ops, ev, i).0.qmode == m.qmode,
        apply_ops_from(def, m, ops, ev, i).1 matches Some(e) ==> e == FsmError::QueueOverCapacity
            || e == FsmError::NotSupported,
    decreases ops.len() - i,
{
    if 0 <= i < ops.len() {
        lemma_apply_op_frame(def, m, ops[i], ev);
        let step = apply_op(def, m, ops[i], ev);
        if step.1 is None {
            lemma_apply_ops_frame(def, step.0, ops, ev, i + 1);
        }
    }
}

/// The error a failing exit sequence reports is never `NoTransition`.
pub proof fn lemma_exit_state_err(def: FsmDef, m: Model, s: int, ev: FsmEvent)
    ensures
        exit_state(def, m, s, ev).1 matches Some(e) ==> e != FsmError::NoTransition,
    decreases def.machine_count - machine_of_state_c(def, s), 1int, 0int,
{
    lemma_apply_ops_frame(def, m, def.states@[s].exit@, ev, 0);
    let hook = apply_ops(def, m, def.states@[s].exit@, ev);
    if hook.1 is None {
        let m2 = crate::sem::cancel_exit_timers(def, hook.0, def.states@[s].timers@, 0);
        match crate::sem::sub_machine_of(def, s, machine_of_state_c(def, s)) {
            Some(sm) => {
                if 0 <= sm < m2.started.len() && m2.started[sm] {
                    lemma_exit_regions_err(def, m2, sm, 0);
                }
            },
            None => {},
        }
    }
}

/// The error a failing recursive region exit reports is never
/// `NoTransition`.
pub proof fn lemma_exit_regions_err(def: FsmDef, m: Model, mach: int, i: int)
    ensures
        exit_regions(def, m, mach, i).1 matches Some(e) ==> e != FsmError::NoTransition,
    decreases def.machine_count - mach, 2int, def.regions@.len() - i,
{
    if !(i < 0 || i >= def.regions@.len() || !(0 <= mach < def.machine_count)) {
        if def.regions@[i].machine == mach && (m.current[i] matches FsmCurrentState::State(s)
            && 0 <= s < def.states@.len() && machine_of_state_c(def, s as int) == mach) {
            let s = m.current[i]->State_0;
            lemma_exit_state_err(def, m, s as int, FsmEvent::NoEvent);
            let step = exit_state(def, m, s as int, FsmEvent::NoEvent);
            if step.1 is None {
                lemma_exit_regions_err(def, step.0, mach, i + 1);
            }
        } else {
            lemma_exit_regions_err(def, m, mach, i + 1);
        }
    }
}

/// The error a failing entry sequence reports is never `NoTransition`.
pub proof fn lemma_enter_state_err(def: FsmDef, m: Model, s: int, ev: FsmEvent)
    ensures
        enter_state(def, m, s, ev).1 matches Some(e) ==> e != FsmError::NoTransition,
    decreases def.machine_count - machine_of_state_c(def, s), 4int, 0int,
{
    lemma_apply_ops_frame(def, m, def.states@[s].entry@, ev, 0);
    let hook = apply_ops(def, m, def.states@[s].entry@, ev);
    if hook.1 is None {
        let m2 = crate::sem::create_entry_timers(def, hook.0, def.states@[s].timers@, 0);
        match crate::sem::sub_machine_of(def, s, machine_of_state_c(def, s)) {
            Some(sm) => {
                if 0 <= sm < m2.started.len() && m2.started[sm] {
                    lemma_enter_regions_err(def, m2, sm, 0);
                } else {
                    lemma_start_sub_err(def, m2, sm);
                }
            },
            None => {},
        }
    }
}

/// The error a failing recursive region re-entry reports is never
/// `NoTransition`.
pub proof fn lemma_enter_regions_err(def: FsmDef, m: Model, mach: int, i: int)
    ensures
        enter_regions(def, m, mach, i).1 matches Some(e) ==> e != FsmError::NoTransition,
    decreases def.machine_count - mach, 5int, def.regions@.len() - i,
{
    if !(i < 0 || i >= def.regions@.len() || !(0 <= mach < def.machine_count)) {
        if def.regions@[i].machine == mach && (m.current[i] matches FsmCurrentState::State(s)
            && 0 <= s < def.states@.len() && machine_of_state_c(def, s as int) == mach) {
            let s = m.current[i]->State_0;
            lemma_enter_state_err(def, m, s as int, FsmEvent::NoEvent);
            let step = enter_state(def, m, s as int, FsmEvent::NoEvent);
            if step.1 is None {
                lemma_enter_regions_err(def, step.0, mach, i + 1);
            }
        } else {
            lemma_enter_regions_err(def, m, mach, i + 1);
        }
    }
}

/// The error a failing region start reports is never `NoTransition`.
pub proof fn lemma_start_regions_err(def: FsmDef, m: Model, mach: int, i: int)
    ensures
        start_regions(def, m, mach, i).1 matches Some(e) ==> e != FsmError::NoTransition,
    decreases def.machine_count - mach, 9int, def.regions@.len() - i,
{
    if !(i < 0 || i >= def.regions@.len() || !(0 <= mach < def.machine_count)) {
        if def.regions@[i].machine == mach && def.regions@[i].initial < def.states@.len()
            && machine_of_state_c(def, def.regions@[i].initial as int) == mach {
            let s0 = def.regions@[i].initial;
            let m1 = with_current(m, m.current.update(i, FsmCurrentState::State(s0)));
            lemma_enter_state_err(def, m1, s0 as int, FsmEvent::NoEvent);
            let step = enter_state(def, m1, s0 as int, FsmEvent::NoEvent);
            if step.1 is None {
                lemma_start_regions_err(def, step.0, mach, i + 1);
            }
        } else {
            lemma_start_regions_err(def, m, mach, i + 1);
        }
    }
}

/// The error a failing sub-machine start reports is never `NoTransition`:
/// the eventless pass's own `NoTransition` outcome is informational and
/// filtered by `hard_err`.
pub proof fn lemma_start_sub_err(def: FsmDef, m: Model, sm: int)
    ensures
        start_sub_machine(def, m, sm).1 matches Some(e) ==> e != FsmError::NoTransition,
    decreases def.machine_count - sm, 10int, 0int,
{
    if 0 <= sm < def.machine_count {
        let m1 = crate::sem::with_started(m, m.started.update(sm, true));
        lemma_start_regions_err(def, m1, sm, 0);
    }
}

/// The error a failing transition-entry half reports is never
/// `NoTransition`.
pub proof fn lemma_enter_target_err(def: FsmDef, m: Model, t: int, ev: FsmEvent, mach: int)
    ensures
        enter_target(def, m, t, ev, mach).1 matches Some(e) ==> e != FsmError::NoTransition,
    decreases def.machine_count - mach, 5int, 1int,
{
    let tr = def.transitions@[t];
    match crate::sem::sub_machine_of(def, tr.target as int, mach) {
        Some(sm) => {
            if !tr.shallow_history {
                if mach < sm < def.machine_count {
                    lemma_start_sub_err(def, m, sm);
                }
            } else {
                if machine_of_state_c(def, tr.target as int) == mach {
                    lemma_enter_state_err(def, m, tr.target as int, ev);
                }
            }
        },
        None => {
            if machine_of_state_c(def, tr.target as int) == mach {
                lemma_enter_state_err(def, m, tr.target as int, ev);
            }
        },
    }
}

/// A transition that runs either succeeds or reports a hard error:
/// `NoTransition` can only mean that no transition matched, never that one
/// ran and failed.
pub proof fn lemma_run_transition_err(def: FsmDef, m: Model, r: int, t: int, ev: FsmEvent)
    ensures
        run_transition(def, m, r, t, ev).1 != Err::<(), FsmError>(FsmError::NoTransition),
    decreases def.machine_count - region_machine_c(def, r), 6int, 0int,
{
    let tr = def.transitions@[t];
    if tr.internal {
        lemma_apply_ops_frame(def, m, tr.action@, ev, 0);
    } else {
        let s = tr.source as int;
        lemma_exit_state_err(def, m, s, ev);
        let exited = exit_state(def, m, s, ev);
        if exited.1 is None {
            lemma_apply_ops_frame(def, exited.0, tr.action@, ev, 0);
            let acted = apply_ops(def, exited.0, tr.action@, ev);
            if acted.1 is None {
                lemma_enter_target_err(def, acted.0, t, ev, region_machine_c(def, r));
            }
        }
    }
}

/// A region that reports `NoTransition` mutated nothing: either it was
/// stopped, or no declared transition matched — in its own table and, for a
/// sub-machine slot, in the sub-machine's regions recursively.
pub proof fn lemma_region_step_no_transition(def: FsmDef, m: Model, r: int, ev: FsmEvent)
    ensures
        region_step(def, m, r, ev).1 == Err::<(), FsmError>(FsmError::NoTransition)
            ==> region_step(def, m, r, ev).0 == m,
    decreases def.machine_count - region_machine_c(def, r), 7int, 0int,
{
    match m.current[r] {
        FsmCurrentState::Stopped => {},
        FsmCurrentState::State(s) => {
            if 0 <= s < def.states@.len() && machine_of_state_c(def, s as int)
                == region_machine_c(def, r) {
                let sub = crate::sem::sub_machine_of(def, s as int, region_machine_c(def, r));
                match sub {
                    Some(sm) => {
                        if 0 <= sm < m.started.len() && m.started[sm] {
                            lemma_no_transition_unchanged(def, m, sm, ev);
                        }
                    },
                    None => {},
                }
                let routed = match sub {
                    Some(sm) => if 0 <= sm < m.started.len() && m.started[sm] {
                        dispatch_machine(def, m, sm, ev)
                    } else {
                        (m, Err(FsmError::NoTransition))
                    },
                    None => (m, Err(FsmError::NoTransition)),
                };
                if routed.1 == Err::<(), FsmError>(FsmError::NoTransition) {
                    match find_transition(def, routed.0, s as int, ev, 0) {
                        None => {},
                        Some(t) => {
                            lemma_run_transition_err(def, routed.0, r, t, ev);
                        },
                    }
                }
            }
        },
    }
}

/// A region fold in which no region matched and no hard error surfaced
/// mutated nothing, and its recorded first hard error is never
/// `NoTransition`.
pub proof fn lemma_dispatch_regions_no_transition(
    def: FsmDef,
    m: Model,
    mach: int,
    ev: FsmEvent,
    i: int,
)
    ensures
        (!dispatch_regions(def, m, mach, ev, i).1 && dispatch_regions(def, m, mach, ev, i).2
            is None) ==> dispatch_regions(def, m, mach, ev, i).0 == m,
        dispatch_regions(def, m, mach, ev, i).2 matches Some(e) ==> e != FsmError::NoTransition,
    decreases def.machine_count - mach, 8int, def.regions@.len() - i,
{
    if !(i < 0 || i >= def.regions@.len() || !(0 <= mach < def.machine_count)) {
        if def.regions@[i].machine == mach && region_machine_c(def, i) == mach {
            let step = region_step(def, m, i, ev);
            lemma_region_step_no_transition(def, m, i, ev);
            lemma_dispatch_regions_no_transition(def, step.0, mach, ev, i + 1);
        } else {
            lemma_dispatch_regions_no_transition(def, m, mach, ev, i + 1);
        }
    }
}

/// For all events with no matching transition in any region, a dispatch
/// pass reports `NoTransition` and leaves the machine's model — the state
/// vector, the state data, the context, the timers and the queue — exactly
/// as it was. A dispatch blocked by an interrupt state mutates nothing
/// either.
pub proof fn lemma_no_transition_unchanged(def: FsmDef, m: Model, mach: int, ev: FsmEvent)
    ensures
        dispatch_machine(def, m, mach, ev).1 == Err::<(), FsmError>(FsmError::NoTransition)
            ==> dispatch_machine(def, m, mach, ev).0 == m,
        is_interrupted(def, m, mach, ev) && 0 <= mach < def.machine_count ==> dispatch_machine(
            def,
            m,
            mach,
            ev,
        ).0 == m,
    decreases def.machine_count - mach, 9int, def.regions@.len() + 1,
{
    if 0 <= mach < def.machine_count && !is_interrupted(def, m, mach, ev) {
        lemma_dispatch_regions_no_transition(def, m, mach, ev, 0);
    }
}

/// A region whose current plain state has no declared matching transition
/// reports `NoTransition` and leaves the model untouched.
pub proof fn lemma_region_step_no_match(def: FsmDef, m: Model, r: int, s: usize, ev: FsmEvent)
    requires
        inv(def, m),
        0 <= r < def.regions@.len(),
        m.current[r] == FsmCurrentState::State(s),
        def.states@[s as int].kind == StateKind::Normal,
        find_transition(def, m, s as int, ev, 0) is None,
    ensures
        region_step(def, m, r, ev) == (m, Err::<(), FsmError>(FsmError::NoTransition)),
{
    assert(crate::defs::wf_state(def, s as int));
    assert(crate::defs::wf_region(def, def.states@[s as int].region as int));
    assert(machine_of_state_c(def, s as int) == region_machine_c(def, r));
}

/// Helper: a region fold in which every region, on the incoming model,
/// reports `NoTransition` yields no match, no hard error and no mutation.
proof fn lemma_dispatch_regions_no_match(def: FsmDef, m: Model, mach: int, ev: FsmEvent, i: int)
    requires
        0 <= mach < def.machine_count,
        forall|r: int|
            0 <= r < def.regions@.len() && def.regions@[r].machine == mach ==> (
            #[trigger] region_step(def, m, r, ev)).1 == Err::<(), FsmError>(
                FsmError::NoTransition,
            ),
    ensures
        dispatch_regions(def, m, mach, ev, i) == (m, false, None::<FsmError>),
    decreases def.machine_count - mach, 8int, def.regions@.len() - i,
{
    if !(i < 0 || i >= def.regions@.len()) {
        if def.regions@[i].machine == mach && region_machine_c(def, i) == mach {
            lemma_region_step_no_transition(def, m, i, ev);
            lemma_dispatch_regions_no_match(def, m, mach, ev, i + 1);
        } else {
            lemma_dispatch_regions_no_match(def, m, mach, ev, i + 1);
        }
    }
}

/// For all events with no matching transition in any region — each region's
/// step, evaluated on the incoming model, reports `NoTransition` — an
/// uninterrupted dispatch pass returns `NoTransition` and mutates nothing.
pub proof fn lemma_no_match_yields_no_transition(def: FsmDef, m: Model, mach: int, ev: FsmEvent)
    requires
        0 <= mach < def.machine_count,
        !is_interrupted(def, m, mach, ev),
        forall|r: int|
            0 <= r < def.regions@.len() && def.regions@[r].machine == mach ==> (
            #[trigger] region_step(def, m, r, ev)).1 == Err::<(), FsmError>(
                FsmError::NoTransition,
            ),
    ensures
        dispatch_machine(def, m, mach, ev) == (m, Err::<(), FsmError>(FsmError::NoTransition)),
{
    lemma_dispatch_regions_no_match(def, m, mach, ev, 0);
}

/// When no region of the machine sits in an interrupt state that excludes
/// the event, dispatch proceeds normally: the interrupt check changes
/// nothing about the per-region protocol or its aggregation.
pub proof fn lemma_whitelisted_event_proceeds(def: FsmDef, m: Model, mach: int, ev: FsmEvent)
    requires
        0 <= mach < def.machine_count,
        !is_interrupted(def, m, mach, ev),
    ensures
        dispatch_machine(def, m, mach, ev) == {
            let folded = dispatch_regions(def, m, mach, ev, 0);
            let result: Result<(), FsmError> = match folded.2 {
                Some(e) => Err(e),
                None => if folded.1 {
                    Ok(())
                } else {
                    Err(FsmError::NoTransition)
                },
            };
            (folded.0, result)
        },
{
}

/// While a region's current state is an interrupt state, dispatching any
/// event outside its resume whitelist is blocked: the pass reports
/// `Interrupted` and performs no mutation at all.
pub proof fn lemma_interrupt_blocks(def: FsmDef, m: Model, mach: int, ev: FsmEvent)
    requires
        0 <= mach < def.machine_count,
        is_interrupted(def, m, mach, ev),
    ensures
        dispatch_machine(def, m, mach, ev) == (m, Err::<(), FsmError>(FsmError::Interrupted)),
{
}

/// Helper for `lemma_find_transition_first`: the search from `j` onward.
proof fn lemma_find_transition_from(def: FsmDef, m: Model, s: int, ev: FsmEvent, t: int, j: int)
    requires
        0 <= j <= t < def.transitions@.len(),
        def.transitions@[t].source == s,
        def.transitions@[t].trigger == crate::events::key_of(ev),
        crate::sem::guard_passes(def, m, def.transitions@[t].guard, ev),
        forall|u: int|
            0 <= u < t ==> !((#[trigger] def.transitions@[u]).source == s
                && def.transitions@[u].trigger == crate::events::key_of(ev)
                && crate::sem::guard_passes(def, m, def.transitions@[u].guard, ev)),
    ensures
        find_transition(def, m, s, ev, j) == Some(t),
    decreases t - j,
{
    if j < t {
        lemma_find_transition_from(def, m, s, ev, t, j + 1);
    }
}

/// Which transition a dispatch pass selects: the first declared one whose
/// source state, event discriminant and guard all match.
pub proof fn lemma_find_transition_first(def: FsmDef, m: Model, s: int, ev: FsmEvent, t: int)
    requires
        0 <= t < def.transitions@.len(),
        def.transitions@[t].source == s,
        def.transitions@[t].trigger == crate::events::key_of(ev),
        crate::sem::guard_passes(def, m, def.transitions@[t].guard, ev),
        forall|u: int|
            0 <= u < t ==> !((#[trigger] def.transitions@[u]).source == s
                && def.transitions@[u].trigger == crate::events::key_of(ev)
                && crate::sem::guard_passes(def, m, def.transitions@[u].guard, ev)),
    ensures
        find_transition(def, m, s, ev, 0) == Some(t),
{
    lemma_find_transition_from(def, m, s, ev, t, 0);
}

/// A region whose current plain state has a matching declared transition —
/// first in declaration order among those whose guard passes — executes
/// exactly that transition.
pub proof fn lemma_region_step_fires(
    def: FsmDef,
    m: Model,
    r: int,
    s: usize,
    ev: FsmEvent,
    t: int,
)
    requires
        inv(def, m),
        0 <= r < def.regions@.len(),
        m.current[r] == FsmCurrentState::State(s),
        def.states@[s as int].kind == StateKind::Normal,
        find_transition(def, m, s as int, ev, 0) == Some(t),
    ensures
        region_step(def, m, r, ev) == run_transition(def, m, r, t, ev),
{
    assert(crate::defs::wf_state(def, s as int));
    assert(crate::defs::wf_region(def, def.states@[s as int].region as int));
    assert(machine_of_state_c(def, s as int) == region_machine_c(def, r));
}

/// An external transition whose exit hook, action and entry half all
/// succeed runs them exactly once each, in the order
/// exit → action → entry, and then moves the region's current state to the
/// declared target.
pub proof fn lemma_external_transition_protocol(
    def: FsmDef,
    m: Model,
    r: int,
    t: int,
    ev: FsmEvent,
)
    requires
        0 <= t < def.transitions@.len(),
        0 <= r < m.current.len(),
        !def.transitions@[t].internal,
        exit_state(def, m, def.transitions@[t].source as int, ev).1 is None,
        apply_ops(
            def,
            exit_state(def, m, def.transitions@[t].source as int, ev).0,
            def.transitions@[t].action@,
            ev,
        ).1 is None,
        enter_target(
            def,
            apply_ops(
                def,
                exit_state(def, m, def.transitions@[t].source as int, ev).0,
                def.transitions@[t].action@,
                ev,
            ).0,
            t,
            ev,
            region_machine_c(def, r),
        ).1 is None,
    ensures
        run_transition(def, m, r, t, ev) == {
            let exited = exit_state(def, m, def.transitions@[t].source as int, ev).0;
            let acted = apply_ops(def, exited, def.transitions@[t].action@, ev).0;
            let entered = enter_target(def, acted, t, ev, region_machine_c(def, r)).0;
            (
                with_current(
                    entered,
                    entered.current.update(
                        r,
                        FsmCurrentState::State(def.transitions@[t].target),
                    ),
                ),
                Ok::<(), FsmError>(()),
            )
        },
{
}

/// An internal transition runs its action exactly once and skips the exit
/// and entry hooks entirely: the state vector, the started flags and the
/// timers stay exactly as they were.
pub proof fn lemma_internal_transition_protocol(
    def: FsmDef,
    m: Model,
    r: int,
    t: int,
    ev: FsmEvent,
)
    requires
        0 <= t < def.transitions@.len(),
        def.transitions@[t].internal,
    ensures
        run_transition(def, m, r, t, ev).0 == apply_ops(def, m, def.transitions@[t].action@, ev).0,
        run_transition(def, m, r, t, ev).0.current == m.current,
        run_transition(def, m, r, t, ev).0.started == m.started,
        run_transition(def, m, r, t, ev).0.timers == m.timers,
        apply_ops(def, m, def.transitions@[t].action@, ev).1 is None ==> run_transition(
            def,
            m,
            r,
            t,
            ev,
        ).1 is Ok,
{
    lemma_apply_ops_frame(def, m, def.transitions@[t].action@, ev, 0);
}

/// For all events with no matching transition in any region, a full
/// dispatch call that starts with an empty queue returns `NoTransition`
/// and leaves the machine — state vector included — exactly as it was,
/// whatever the queue-draining policy.
pub proof fn lemma_dispatch_full_no_transition(
    def: FsmDef,
    m: Model,
    ev: FsmEvent,
    pre: bool,
    post: bool,
)
    requires
        m.queue.len() == 0,
        crate::sem::spec_dispatch_full(def, m, ev, pre, post).1 == Err::<(), FsmError>(
            FsmError::NoTransition,
        ),
    ensures
        crate::sem::spec_dispatch_full(def, m, ev, pre, post).0 == m,
{
    lemma_no_transition_unchanged(def, m, 0, ev);
}

/// Interrupt semantics at the full dispatch call: while some root region
/// sits in an interrupt state whose whitelist excludes the event, the call
/// is `Interrupted` and, starting from an empty queue, nothing changes.
pub proof fn lemma_dispatch_full_interrupted(
    def: FsmDef,
    m: Model,
    ev: FsmEvent,
    pre: bool,
    post: bool,
)
    requires
        m.queue.len() == 0,
        0 < def.machine_count,
        is_interrupted(def, m, 0, ev),
    ensures
        crate::sem::spec_dispatch_full(def, m, ev, pre, post) == (
            m,
            Err::<(), FsmError>(FsmError::Interrupted),
        ),
{
    lemma_interrupt_blocks(def, m, 0, ev);
}

/// Timer round trip, one-shot half: a one-shot timer created with timeout
/// `T` and ticked by `T` or more fires exactly once — its id enters the
/// pending buffer once and the slot self-clears — and every further tick of
/// the cleared slot fires nothing.
pub proof fn lemma_oneshot_timer_round_trip(
    settings: crate::defs::TimerSettings,
    elapsed: u64,
    elapsed2: u64,
)
    requires
        settings.enabled,
        !settings.renew,
        settings.timeout <= elapsed,
    ensures
        crate::timers::spec_create(settings) == Some(
            crate::timers::CoreTimer::Timeout { time_remaining: settings.timeout },
        ),
        crate::timers::spec_tick(
            seq![crate::timers::spec_create(settings)],
            Seq::<usize>::empty(),
            elapsed,
            0,
        ) == (seq![None::<crate::timers::CoreTimer>], seq![0usize]),
        crate::timers::spec_tick(
            seq![None::<crate::timers::CoreTimer>],
            Seq::<usize>::empty(),
            elapsed2,
            0,
        ) == (seq![None::<crate::timers::CoreTimer>], Seq::<usize>::empty()),
{
    reveal_with_fuel(crate::timers::spec_tick, 3);
    let armed = seq![crate::timers::spec_create(settings)];
    let fired = crate::timers::spec_tick(armed, Seq::<usize>::empty(), elapsed, 0);
    assert(fired.0 =~= seq![None::<crate::timers::CoreTimer>]);
    assert(fired.1 =~= seq![0usize]);
    let cleared = seq![None::<crate::timers::CoreTimer>];
    let again = crate::timers::spec_tick(cleared, Seq::<usize>::empty(), elapsed2, 0);
    assert(again.0 =~= cleared);
    assert(again.1 =~= Seq::<usize>::empty());
}

/// Timer round trip, renewing half: an interval timer whose countdown
/// elapses fires and re-arms to exactly its created state, so it fires
/// again every period, indefinitely.
pub proof fn lemma_interval_timer_rearms(settings: crate::defs::TimerSettings, elapsed: u64)
    requires
        settings.enabled,
        settings.renew,
        settings.timeout <= elapsed,
    ensures
        crate::timers::spec_create(settings) == Some(
            crate::timers::CoreTimer::Interval {
                time_remaining: settings.timeout,
                interval: settings.timeout,
            },
        ),
        crate::timers::spec_tick(
            seq![crate::timers::spec_create(settings)],
            Seq::<usize>::empty(),
            elapsed,
            0,
        ) == (seq![crate::timers::spec_create(settings)], seq![0usize]),
{
    reveal_with_fuel(crate::timers::spec_tick, 3);
    let armed = seq![crate::timers::spec_create(settings)];
    let fired = crate::timers::spec_tick(armed, Seq::<usize>::empty(), elapsed, 0);
    assert(fired.0 =~= armed);
    assert(fired.1 =~= seq![0usize]);
}

/// A tick smaller than the remaining countdown fires nothing: it only
/// counts the timer down by the elapsed duration.
pub proof fn lemma_timer_counts_down(time_remaining: u64, elapsed: u64)
    requires
        elapsed < time_remaining,
    ensures
        crate::timers::spec_tick(
            seq![Some(crate::timers::CoreTimer::Timeout { time_remaining })],
            Seq::<usize>::empty(),
            elapsed,
            0,
        ) == (
            seq![
                Some(
                    crate::timers::CoreTimer::Timeout {
                        time_remaining: (time_remaining - elapsed) as u64,
                    },
                ),
            ],
            Seq::<usize>::empty(),
        ),
{
    reveal_with_fuel(crate::timers::spec_tick, 3);
    let armed = seq![Some(crate::timers::CoreTimer::Timeout { time_remaining })];
    let ticked = crate::timers::spec_tick(armed, Seq::<usize>::empty(), elapsed, 0);
    assert(ticked.0 =~= seq![
        Some(crate::timers::CoreTimer::Timeout { time_remaining: (time_remaining - elapsed) as u64 }),
    ]);
    assert(ticked.1 =~= Seq::<usize>::empty());
}

} // verus!
