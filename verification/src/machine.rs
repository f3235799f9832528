//! The dispatch engine: the executable machine, whose every operation is
//! specified against the model of [`crate::sem`].

use vstd::prelude::*;

use crate::defs::check_def;
use crate::defs::wf_def;
use crate::defs::wf_op;
use crate::defs::wf_ops;
use crate::defs::ActionOp;
use crate::defs::FsmDef;
use crate::defs::GuardDef;
use crate::defs::StateKind;
use crate::events::event_key;
use crate::events::key_of;
use crate::events::EventKey;
use crate::events::FsmEvent;
use crate::inspect::Inspect;
use crate::inspect::InspectScope;
use crate::queue::FsmEventQueue;
use crate::sem::apply_op;
use crate::sem::apply_ops;
use crate::sem::apply_ops_from;
use crate::sem::guard_passes;
use crate::sem::inv;
use crate::sem::payload_of;
use crate::sem::sat_add;
use crate::sem::FsmCurrentState;
use crate::sem::Model;
use crate::timers::TimersCore;
use crate::FsmError;
use crate::FsmResult;

verus! {

/// The mutable half of a machine: the live data behind the model.
pub struct MachineState {
    pub current: Vec<FsmCurrentState>,
    pub store: Vec<Vec<u64>>,
    pub context: Vec<u64>,
    pub started: Vec<bool>,
    pub timers: TimersCore,
}

/// The model of the machine's mutable half together with its queue.
pub open spec fn engine_model<Q: FsmEventQueue>(st: MachineState, q: Q) -> Model {
    Model {
        current: st.current@,
        store: st.store@.map_values(|v: Vec<u64>| v@),
        context: st.context@,
        started: st.started@,
        timers: st.timers.timers_seq(),
        queue: q.contents(),
        qmode: q.mode(),
    }
}

/// Saturating addition on data words.
pub fn sat_add_exec(a: u64, b: u64) -> (r: u64)
    ensures
        r == sat_add(a, b),
{
    if a <= u64::MAX - b {
        a + b
    } else {
        u64::MAX
    }
}

/// Reads the payload a guard or action sees.
fn payload_exec(ev: &FsmEvent) -> (p: u64)
    ensures
        p == payload_of(*ev),
{
    match ev {
        FsmEvent::Event(e) => e.payload,
        FsmEvent::NoEvent => 0,
        FsmEvent::Timer(_) => 0,
    }
}

/// Applies one action step to the live state, as `apply_op` describes.
pub(crate) fn apply_op_exec<Q: FsmEventQueue>(
    def: &FsmDef,
    st: &mut MachineState,
    queue: &mut Q,
    op: &ActionOp,
    ev: &FsmEvent,
) -> (r: Option<FsmError>)
    requires
        inv(*def, engine_model(*old(st), *old(queue))),
        wf_op(*def, *op),
    ensures
        inv(*def, engine_model(*final(st), *final(queue))),
        (engine_model(*final(st), *final(queue)), r) == apply_op(
            *def,
            engine_model(*old(st), *old(queue)),
            *op,
            *ev,
        ),
        final(st).timers.pending_view() == old(st).timers.pending_view(),
{
    let ghost m0 = engine_model(*old(st), *old(queue));
    match op {
        ActionOp::IncStateData { state, index } => {
            proof {
                assert(st.store@.len() == engine_model(*st, *queue).store.len());
                assert(engine_model(*st, *queue).store[*state as int] == st.store@[*state as int]@);
            }
            let cur = st.store[*state][*index];
            let nv = sat_add_exec(cur, 1);
            st.store[*state].set(*index, nv);
            proof {
                assert(engine_model(*st, *queue).store =~= m0.store.update(
                    *state as int,
                    m0.store[*state as int].update(*index as int, nv),
                ));
                assert(engine_model(*st, *queue) =~= apply_op(*def, m0, *op, *ev).0);
            }
            None
        },
        ActionOp::AddPayloadToStateData { state, index } => {
            proof {
                assert(st.store@.len() == engine_model(*st, *queue).store.len());
                assert(engine_model(*st, *queue).store[*state as int] == st.store@[*state as int]@);
            }
            let cur = st.store[*state][*index];
            let nv = sat_add_exec(cur, payload_exec(ev));
            st.store[*state].set(*index, nv);
            proof {
                assert(engine_model(*st, *queue).store =~= m0.store.update(
                    *state as int,
                    m0.store[*state as int].update(*index as int, nv),
                ));
                assert(engine_model(*st, *queue) =~= apply_op(*def, m0, *op, *ev).0);
            }
            None
        },
        ActionOp::SetStateData { state, index, value } => {
            proof {
                assert(st.store@.len() == engine_model(*st, *queue).store.len());
                assert(engine_model(*st, *queue).store[*state as int] == st.store@[*state as int]@);
            }
            st.store[*state].set(*index, *value);
            proof {
                assert(engine_model(*st, *queue).store =~= m0.store.update(
                    *state as int,
                    m0.store[*state as int].update(*index as int, *value),
                ));
                assert(engine_model(*st, *queue) =~= apply_op(*def, m0, *op, *ev).0);
            }
            None
        },
        ActionOp::IncContext { index } => {
            let cur = st.context[*index];
            let nv = sat_add_exec(cur, 1);
            st.context.set(*index, nv);
            proof {
                assert(engine_model(*st, *queue) =~= apply_op(*def, m0, *op, *ev).0);
            }
            None
        },
        ActionOp::AddPayloadToContext { index } => {
            let cur = st.context[*index];
            let nv = sat_add_exec(cur, payload_exec(ev));
            st.context.set(*index, nv);
            proof {
                assert(engine_model(*st, *queue) =~= apply_op(*def, m0, *op, *ev).0);
            }
            None
        },
        ActionOp::SetContext { index, value } => {
            st.context.set(*index, *value);
            proof {
                assert(engine_model(*st, *queue) =~= apply_op(*def, m0, *op, *ev).0);
            }
            None
        },
        ActionOp::EnqueueEvent(e) => {
            match queue.enqueue(*e) {
                Ok(()) => {
                    proof {
                        assert(engine_model(*st, *queue) =~= apply_op(*def, m0, *op, *ev).0);
                    }
                    None
                },
                Err(err) => {
                    proof {
                        assert(engine_model(*st, *queue) =~= apply_op(*def, m0, *op, *ev).0);
                    }
                    Some(err)
                },
            }
        },
    }
}

/// Runs a hook or action from its first step, stopping at the first failing
/// step, as `apply_ops` describes.
pub(crate) fn apply_ops_exec<Q: FsmEventQueue>(
    def: &FsmDef,
    st: &mut MachineState,
    queue: &mut Q,
    ops: &Vec<ActionOp>,
    ev: &FsmEvent,
) -> (r: Option<FsmError>)
    requires
        inv(*def, engine_model(*old(st), *old(queue))),
        wf_ops(*def, ops@),
    ensures
        inv(*def, engine_model(*final(st), *final(queue))),
        (engine_model(*final(st), *final(queue)), r) == apply_ops(
            *def,
            engine_model(*old(st), *old(queue)),
            ops@,
            *ev,
        ),
        final(st).timers.pending_view() == old(st).timers.pending_view(),
{
    let ghost m0 = engine_model(*old(st), *old(queue));
    let mut i: usize = 0;
    while i < ops.len()
        invariant
            i <= ops.len(),
            m0 == engine_model(*old(st), *old(queue)),
            inv(*def, engine_model(*st, *queue)),
            wf_ops(*def, ops@),
            apply_ops_from(*def, m0, ops@, *ev, 0) == apply_ops_from(
                *def,
                engine_model(*st, *queue),
                ops@,
                *ev,
                i as int,
            ),
            st.timers.pending_view() == old(st).timers.pending_view(),
        decreases ops.len() - i,
    {
        let ghost m_before = engine_model(*st, *queue);
        let step = apply_op_exec(def, st, queue, &ops[i], ev);
        match step {
            Some(e) => {
                proof {
                    assert(apply_ops_from(*def, m_before, ops@, *ev, i as int) == (
                        engine_model(*st, *queue),
                        Some(e),
                    ));
                }
                return Some(e);
            },
            None => {},
        }
        i = i + 1;
    }
    proof {
        assert(apply_ops_from(*def, engine_model(*st, *queue), ops@, *ev, i as int) == (
            engine_model(*st, *queue),
            None::<FsmError>,
        ));
    }
    None
}

/// Evaluates a guard against the event, the context and the state data,
/// as `guard_passes` describes. Mutates nothing.
pub(crate) fn guard_eval_exec<Q: FsmEventQueue>(
    def: &FsmDef,
    st: &MachineState,
    queue: &Q,
    g: &GuardDef,
    ev: &FsmEvent,
) -> (b: bool)
    requires
        inv(*def, engine_model(*st, *queue)),
        crate::defs::wf_guard(*def, *g),
    ensures
        b == guard_passes(*def, engine_model(*st, *queue), *g, *ev),
{
    match g {
        GuardDef::Always => true,
        GuardDef::PayloadEquals(v) => payload_exec(ev) == *v,
        GuardDef::PayloadAtLeast(v) => payload_exec(ev) >= *v,
        GuardDef::StateDataAtLeast { state, index, min } => {
            proof {
                assert(st.store@.len() == engine_model(*st, *queue).store.len());
                assert(engine_model(*st, *queue).store[*state as int] == st.store@[
                    *state as int
                ]@);
            }
            st.store[*state][*index] >= *min
        },
        GuardDef::ContextEquals { index, value } => st.context[*index] == *value,
        GuardDef::ContextAtLeast { index, min } => st.context[*index] >= *min,
    }
}

/// Finds the first matching declared transition from state `s` for the
/// event, notifying inspection of every guard it evaluates.
pub(crate) fn find_transition_exec<Q: FsmEventQueue, I: Inspect>(
    def: &FsmDef,
    st: &MachineState,
    queue: &Q,
    insp: &mut I,
    s: usize,
    ev: &FsmEvent,
    scope: &InspectScope,
) -> (r: Option<usize>)
    requires
        inv(*def, engine_model(*st, *queue)),
    ensures
        match r {
            Some(t) => Some(t as int) == crate::sem::find_transition(
                *def,
                engine_model(*st, *queue),
                s as int,
                *ev,
                0,
            ) && t < def.transitions@.len() && def.transitions@[t as int].source == s,
            None => crate::sem::find_transition(
                *def,
                engine_model(*st, *queue),
                s as int,
                *ev,
                0,
            ) is None,
        },
{
    let k = event_key(ev);
    let mut t: usize = 0;
    while t < def.transitions.len()
        invariant
            t <= def.transitions@.len(),
            inv(*def, engine_model(*st, *queue)),
            crate::sem::find_transition(*def, engine_model(*st, *queue), s as int, *ev, 0)
                == crate::sem::find_transition(
                *def,
                engine_model(*st, *queue),
                s as int,
                *ev,
                t as int,
            ),
            k == key_of(*ev),
        decreases def.transitions@.len() - t,
    {
        let tr = &def.transitions[t];
        if tr.source == s && tr.trigger == k {
            proof {
                assert(crate::defs::wf_transition(*def, t as int));
            }
            let g = guard_eval_exec(def, st, queue, &tr.guard, ev);
            insp.on_guard(scope, t, g);
            if g {
                return Some(t);
            }
        }
        t = t + 1;
    }
    None
}

/// Whether a whitelist holds an event key.
fn key_in_list(list: &Vec<EventKey>, k: &EventKey) -> (b: bool)
    ensures
        b == list@.contains(*k),
{
    let mut i: usize = 0;
    while i < list.len()
        invariant
            i <= list@.len(),
            forall|j: int| 0 <= j < i ==> list@[j] != *k,
        decreases list@.len() - i,
    {
        if list[i] == *k {
            return true;
        }
        i = i + 1;
    }
    false
}

/// Whether machine `mach` is blocked for this event by an active interrupt
/// state, as `is_interrupted` describes.
pub(crate) fn interrupted_exec<Q: FsmEventQueue>(
    def: &FsmDef,
    st: &MachineState,
    queue: &Q,
    mach: usize,
    ev: &FsmEvent,
) -> (b: bool)
    requires
        inv(*def, engine_model(*st, *queue)),
    ensures
        b == crate::sem::is_interrupted(*def, engine_model(*st, *queue), mach as int, *ev),
{
    let ghost m = engine_model(*st, *queue);
    let k = event_key(ev);
    let mut r: usize = 0;
    while r < def.regions.len()
        invariant
            r <= def.regions@.len(),
            inv(*def, m),
            m == engine_model(*st, *queue),
            k == key_of(*ev),
            forall|j: int|
                0 <= j < r ==> !{
                    &&& def.regions@[j].machine == mach as int
                    &&& #[trigger] m.current[j] matches FsmCurrentState::State(s)
                    &&& def.states@[s as int].interrupt matches Some(wl)
                    &&& !wl@.contains(key_of(*ev))
                },
        decreases def.regions@.len() - r,
    {
        if def.regions[r].machine == mach {
            match st.current[r] {
                FsmCurrentState::State(s) => {
                    match &def.states[s].interrupt {
                        Some(wl) => {
                            if !key_in_list(wl, &k) {
                                proof {
                                    assert({
                                        &&& 0 <= r < def.regions@.len()
                                        &&& def.regions@[r as int].machine == mach as int
                                        &&& m.current[r as int] matches FsmCurrentState::State(s2)
                                        &&& def.states@[s2 as int].interrupt matches Some(wl2)
                                        &&& !wl2@.contains(key_of(*ev))
                                    });
                                }
                                return true;
                            }
                        },
                        None => {},
                    }
                },
                FsmCurrentState::Stopped => {},
            }
        }
        r = r + 1;
    }
    false
}

/// Cancels the `cancel_on_state_exit` timers of a state being left, as
/// `cancel_exit_timers` describes.
pub(crate) fn cancel_exit_timers_exec<Q: FsmEventQueue>(
    def: &FsmDef,
    st: &mut MachineState,
    queue: &Q,
    ids: &Vec<usize>,
) -> (u: ())
    requires
        inv(*def, engine_model(*old(st), *queue)),
    ensures
        inv(*def, engine_model(*final(st), *queue)),
        engine_model(*final(st), *queue) == crate::sem::cancel_exit_timers(
            *def,
            engine_model(*old(st), *queue),
            ids@,
            0,
        ),
        final(st).timers.pending_view() == old(st).timers.pending_view(),
{
    let ghost m0 = engine_model(*old(st), *queue);
    let mut i: usize = 0;
    while i < ids.len()
        invariant
            i <= ids@.len(),
            m0 == engine_model(*old(st), *queue),
            inv(*def, engine_model(*st, *queue)),
            crate::sem::cancel_exit_timers(*def, m0, ids@, 0) == crate::sem::cancel_exit_timers(
                *def,
                engine_model(*st, *queue),
                ids@,
                i as int,
            ),
            st.timers.pending_view() == old(st).timers.pending_view(),
        decreases ids@.len() - i,
    {
        let ghost m_before = engine_model(*st, *queue);
        let id = ids[i];
        if id < def.timers.len() && def.timers[id].settings.cancel_on_state_exit {
            let _ = st.timers.cancel(id);
            proof {
                assert(engine_model(*st, *queue) =~= crate::sem::with_timers(
                    m_before,
                    m_before.timers.update(id as int, None::<crate::timers::CoreTimer>),
                ));
            }
        }
        i = i + 1;
    }
}

/// Creates the declared timers of a state being entered, as
/// `create_entry_timers` describes.
pub(crate) fn create_entry_timers_exec<Q: FsmEventQueue>(
    def: &FsmDef,
    st: &mut MachineState,
    queue: &Q,
    ids: &Vec<usize>,
) -> (u: ())
    requires
        inv(*def, engine_model(*old(st), *queue)),
    ensures
        inv(*def, engine_model(*final(st), *queue)),
        engine_model(*final(st), *queue) == crate::sem::create_entry_timers(
            *def,
            engine_model(*old(st), *queue),
            ids@,
            0,
        ),
        final(st).timers.pending_view() == old(st).timers.pending_view(),
{
    let ghost m0 = engine_model(*old(st), *queue);
    let mut i: usize = 0;
    while i < ids.len()
        invariant
            i <= ids@.len(),
            m0 == engine_model(*old(st), *queue),
            inv(*def, engine_model(*st, *queue)),
            crate::sem::create_entry_timers(*def, m0, ids@, 0) == crate::sem::create_entry_timers(
                *def,
                engine_model(*st, *queue),
                ids@,
                i as int,
            ),
            st.timers.pending_view() == old(st).timers.pending_view(),
        decreases ids@.len() - i,
    {
        let ghost m_before = engine_model(*st, *queue);
        let id = ids[i];
        if id < def.timers.len() {
            let _ = st.timers.create(id, &def.timers[id].settings);
            proof {
                assert(engine_model(*st, *queue) =~= crate::sem::with_timers(
                    m_before,
                    m_before.timers.update(
                        id as int,
                        crate::timers::spec_create(def.timers@[id as int].settings),
                    ),
                ));
            }
        }
        i = i + 1;
    }
}

/// Reduces a dispatch result to its hard error, as `hard_err` describes.
fn hard_err_exec(r: &FsmResult<()>) -> (o: Option<FsmError>)
    ensures
        o == crate::sem::hard_err(*r),
{
    match r {
        Ok(()) => None,
        Err(FsmError::NoTransition) => None,
        Err(e) => Some(*e),
    }
}

/// Leaves state `s`, as `exit_state` describes: inspection, exit hook,
/// timer cancellation, recursive exit of a started embedded sub-machine.
pub(crate) fn exit_state_exec<Q: FsmEventQueue, I: Inspect>(
    def: &FsmDef,
    st: &mut MachineState,
    queue: &mut Q,
    insp: &mut I,
    s: usize,
    ev: &FsmEvent,
    scope: &InspectScope,
) -> (r: Option<FsmError>)
    requires
        inv(*def, engine_model(*old(st), *old(queue))),
        s < def.states@.len(),
    ensures
        inv(*def, engine_model(*final(st), *final(queue))),
        (engine_model(*final(st), *final(queue)), r) == crate::sem::exit_state(
            *def,
            engine_model(*old(st), *old(queue)),
            s as int,
            *ev,
        ),
        final(st).timers.pending_view() == old(st).timers.pending_view(),
    decreases def.machine_count - crate::sem::machine_of_state_c(*def, s as int), 1int, 0int,
{
    proof {
        assert(crate::defs::wf_state(*def, s as int));
    }
    insp.on_state_exit(scope, s);
    let hook = apply_ops_exec(def, st, queue, &def.states[s].exit, ev);
    match hook {
        Some(e) => {
            return Some(e);
        },
        None => {},
    }
    cancel_exit_timers_exec(def, st, queue, &def.states[s].timers);
    let mach = def.regions[def.states[s].region].machine;
    proof {
        assert(crate::defs::wf_region(*def, def.states@[s as int].region as int));
        assert(crate::sem::machine_of_state_c(*def, s as int) == mach as int);
    }
    match def.states[s].kind {
        StateKind::SubMachine(sm) => {
            if mach < sm && sm < def.machine_count {
                proof {
                    assert(crate::sem::sub_machine_of(*def, s as int, mach as int) == Some(
                        sm as int,
                    ));
                }
                if st.started[sm] {
                    exit_regions_exec(def, st, queue, insp, sm, scope)
                } else {
                    None
                }
            } else {
                None
            }
        },
        StateKind::Normal => None,
    }
}

/// Exits the current state of every region of machine `mach`, in declared
/// order, as `exit_regions` describes; the current-state vector is kept.
pub(crate) fn exit_regions_exec<Q: FsmEventQueue, I: Inspect>(
    def: &FsmDef,
    st: &mut MachineState,
    queue: &mut Q,
    insp: &mut I,
    mach: usize,
    scope: &InspectScope,
) -> (r: Option<FsmError>)
    requires
        inv(*def, engine_model(*old(st), *old(queue))),
        mach < def.machine_count,
    ensures
        inv(*def, engine_model(*final(st), *final(queue))),
        (engine_model(*final(st), *final(queue)), r) == crate::sem::exit_regions(
            *def,
            engine_model(*old(st), *old(queue)),
            mach as int,
            0,
        ),
        final(st).timers.pending_view() == old(st).timers.pending_view(),
    decreases def.machine_count - mach, 2int, 0int,
{
    let ghost m0 = engine_model(*old(st), *old(queue));
    let no_ev = FsmEvent::NoEvent;
    let mut i: usize = 0;
    while i < def.regions.len()
        invariant
            i <= def.regions@.len(),
            mach < def.machine_count,
            m0 == engine_model(*old(st), *old(queue)),
            inv(*def, engine_model(*st, *queue)),
            no_ev == FsmEvent::NoEvent,
            crate::sem::exit_regions(*def, m0, mach as int, 0) == crate::sem::exit_regions(
                *def,
                engine_model(*st, *queue),
                mach as int,
                i as int,
            ),
            st.timers.pending_view() == old(st).timers.pending_view(),
        decreases def.regions@.len() - i,
    {
        let ghost m_before = engine_model(*st, *queue);
        if def.regions[i].machine == mach {
            match st.current[i] {
                FsmCurrentState::State(s) => {
                    proof {
                        assert(crate::defs::wf_state(*def, s as int));
                        assert(crate::defs::wf_region(*def, def.states@[s as int].region as int));
                        assert(crate::sem::machine_of_state_c(*def, s as int) == mach as int);
                    }
                    let step = exit_state_exec(def, st, queue, insp, s, &no_ev, scope);
                    match step {
                        Some(e) => {
                            proof {
                                assert(crate::sem::exit_regions(*def, m_before, mach as int, i as int)
                                    == (engine_model(*st, *queue), Some(e)));
                            }
                            return Some(e);
                        },
                        None => {},
                    }
                },
                FsmCurrentState::Stopped => {},
            }
        }
        i = i + 1;
    }
    None
}

/// Enters state `s`, as `enter_state` describes: inspection, entry hook,
/// timer creation, and the start or history re-entry of an embedded
/// sub-machine.
pub(crate) fn enter_state_exec<Q: FsmEventQueue, I: Inspect>(
    def: &FsmDef,
    st: &mut MachineState,
    queue: &mut Q,
    insp: &mut I,
    s: usize,
    ev: &FsmEvent,
    scope: &InspectScope,
) -> (r: Option<FsmError>)
    requires
        inv(*def, engine_model(*old(st), *old(queue))),
        s < def.states@.len(),
    ensures
        inv(*def, engine_model(*final(st), *final(queue))),
        (engine_model(*final(st), *final(queue)), r) == crate::sem::enter_state(
            *def,
            engine_model(*old(st), *old(queue)),
            s as int,
            *ev,
        ),
        final(st).timers.pending_view() == old(st).timers.pending_view(),
    decreases def.machine_count - crate::sem::machine_of_state_c(*def, s as int), 4int, 0int,
{
    proof {
        assert(crate::defs::wf_state(*def, s as int));
    }
    insp.on_state_enter(scope, s);
    let hook = apply_ops_exec(def, st, queue, &def.states[s].entry, ev);
    match hook {
        Some(e) => {
            return Some(e);
        },
        None => {},
    }
    create_entry_timers_exec(def, st, queue, &def.states[s].timers);
    let mach = def.regions[def.states[s].region].machine;
    proof {
        assert(crate::defs::wf_region(*def, def.states@[s as int].region as int));
        assert(crate::sem::machine_of_state_c(*def, s as int) == mach as int);
    }
    match def.states[s].kind {
        StateKind::SubMachine(sm) => {
            if mach < sm && sm < def.machine_count {
                proof {
                    assert(crate::sem::sub_machine_of(*def, s as int, mach as int) == Some(
                        sm as int,
                    ));
                }
                if st.started[sm] {
                    enter_regions_exec(def, st, queue, insp, sm, scope)
                } else {
                    start_sub_machine_exec(def, st, queue, insp, sm, scope)
                }
            } else {
                None
            }
        },
        StateKind::Normal => None,
    }
}

/// Re-enters the current state of every region of machine `mach`, as
/// `enter_regions` describes: the history-resume path.
pub(crate) fn enter_regions_exec<Q: FsmEventQueue, I: Inspect>(
    def: &FsmDef,
    st: &mut MachineState,
    queue: &mut Q,
    insp: &mut I,
    mach: usize,
    scope: &InspectScope,
) -> (r: Option<FsmError>)
    requires
        inv(*def, engine_model(*old(st), *old(queue))),
        mach < def.machine_count,
    ensures
        inv(*def, engine_model(*final(st), *final(queue))),
        (engine_model(*final(st), *final(queue)), r) == crate::sem::enter_regions(
            *def,
            engine_model(*old(st), *old(queue)),
            mach as int,
            0,
        ),
        final(st).timers.pending_view() == old(st).timers.pending_view(),
    decreases def.machine_count - mach, 5int, 0int,
{
    let ghost m0 = engine_model(*old(st), *old(queue));
    let no_ev = FsmEvent::NoEvent;
    let mut i: usize = 0;
    while i < def.regions.len()
        invariant
            i <= def.regions@.len(),
            mach < def.machine_count,
            m0 == engine_model(*old(st), *old(queue)),
            inv(*def, engine_model(*st, *queue)),
            no_ev == FsmEvent::NoEvent,
            crate::sem::enter_regions(*def, m0, mach as int, 0) == crate::sem::enter_regions(
                *def,
                engine_model(*st, *queue),
                mach as int,
                i as int,
            ),
            st.timers.pending_view() == old(st).timers.pending_view(),
        decreases def.regions@.len() - i,
    {
        let ghost m_before = engine_model(*st, *queue);
        if def.regions[i].machine == mach {
            match st.current[i] {
                FsmCurrentState::State(s) => {
                    proof {
                        assert(crate::defs::wf_state(*def, s as int));
                        assert(crate::defs::wf_region(*def, def.states@[s as int].region as int));
                        assert(crate::sem::machine_of_state_c(*def, s as int) == mach as int);
                    }
                    let step = enter_state_exec(def, st, queue, insp, s, &no_ev, scope);
                    match step {
                        Some(e) => {
                            proof {
                                assert(crate::sem::enter_regions(*def, m_before, mach as int, i as int)
                                    == (engine_model(*st, *queue), Some(e)));
                            }
                            return Some(e);
                        },
                        None => {},
                    }
                },
                FsmCurrentState::Stopped => {},
            }
        }
        i = i + 1;
    }
    None
}

/// Moves every region of machine `mach` to its initial state and runs its
/// entry hook, as `start_regions` describes.
pub(crate) fn start_regions_exec<Q: FsmEventQueue, I: Inspect>(
    def: &FsmDef,
    st: &mut MachineState,
    queue: &mut Q,
    insp: &mut I,
    mach: usize,
    scope: &InspectScope,
) -> (r: Option<FsmError>)
    requires
        inv(*def, engine_model(*old(st), *old(queue))),
        mach < def.machine_count,
    ensures
        inv(*def, engine_model(*final(st), *final(queue))),
        (engine_model(*final(st), *final(queue)), r) == crate::sem::start_regions(
            *def,
            engine_model(*old(st), *old(queue)),
            mach as int,
            0,
        ),
        final(st).timers.pending_view() == old(st).timers.pending_view(),
    decreases def.machine_count - mach, 9int, 0int,
{
    let ghost m0 = engine_model(*old(st), *old(queue));
    let no_ev = FsmEvent::NoEvent;
    let mut i: usize = 0;
    while i < def.regions.len()
        invariant
            i <= def.regions@.len(),
            mach < def.machine_count,
            m0 == engine_model(*old(st), *old(queue)),
            inv(*def, engine_model(*st, *queue)),
            no_ev == FsmEvent::NoEvent,
            crate::sem::start_regions(*def, m0, mach as int, 0) == crate::sem::start_regions(
                *def,
                engine_model(*st, *queue),
                mach as int,
                i as int,
            ),
            st.timers.pending_view() == old(st).timers.pending_view(),
        decreases def.regions@.len() - i,
    {
        let ghost m_before = engine_model(*st, *queue);
        if def.regions[i].machine == mach {
            proof {
                assert(crate::defs::wf_region(*def, i as int));
                assert(crate::sem::machine_of_state_c(
                    *def,
                    def.regions@[i as int].initial as int,
                ) == mach as int);
            }
            let s0 = def.regions[i].initial;
            st.current.set(i, FsmCurrentState::State(s0));
            proof {
                assert(engine_model(*st, *queue) =~= crate::sem::with_current(
                    m_before,
                    m_before.current.update(i as int, FsmCurrentState::State(s0)),
                ));
            }
            let step = enter_state_exec(def, st, queue, insp, s0, &no_ev, scope);
            match step {
                Some(e) => {
                    proof {
                        assert(crate::sem::start_regions(*def, m_before, mach as int, i as int)
                            == (engine_model(*st, *queue), Some(e)));
                    }
                    return Some(e);
                },
                None => {},
            }
        }
        i = i + 1;
    }
    None
}

/// Starts an embedded machine, as `start_sub_machine` describes: mark it
/// started, initial states and entry hooks, then one `NoEvent` pass.
pub(crate) fn start_sub_machine_exec<Q: FsmEventQueue, I: Inspect>(
    def: &FsmDef,
    st: &mut MachineState,
    queue: &mut Q,
    insp: &mut I,
    sm: usize,
    scope: &InspectScope,
) -> (r: Option<FsmError>)
    requires
        inv(*def, engine_model(*old(st), *old(queue))),
        sm < def.machine_count,
    ensures
        inv(*def, engine_model(*final(st), *final(queue))),
        (engine_model(*final(st), *final(queue)), r) == crate::sem::start_sub_machine(
            *def,
            engine_model(*old(st), *old(queue)),
            sm as int,
        ),
        final(st).timers.pending_view() == old(st).timers.pending_view(),
    decreases def.machine_count - sm, 10int, 0int,
{
    let ghost m0 = engine_model(*old(st), *old(queue));
    let sub_scope = insp.for_sub_machine(scope, sm);
    st.started.set(sm, true);
    proof {
        assert(engine_model(*st, *queue) =~= crate::sem::with_started(
            m0,
            m0.started.update(sm as int, true),
        ));
    }
    let begun = start_regions_exec(def, st, queue, insp, sm, &sub_scope);
    match begun {
        Some(e) => {
            return Some(e);
        },
        None => {},
    }
    let no_ev = FsmEvent::NoEvent;
    let pass = dispatch_machine_exec(def, st, queue, insp, sm, &no_ev, &sub_scope);
    hard_err_exec(&pass)
}

/// One region's part of a dispatch pass, as `region_step` describes: offer
/// the event to a started embedded sub-machine first, then the slot state's
/// own transitions.
pub(crate) fn region_step_exec<Q: FsmEventQueue, I: Inspect>(
    def: &FsmDef,
    st: &mut MachineState,
    queue: &mut Q,
    insp: &mut I,
    r: usize,
    ev: &FsmEvent,
    scope: &InspectScope,
) -> (res: FsmResult<()>)
    requires
        inv(*def, engine_model(*old(st), *old(queue))),
        r < def.regions@.len(),
    ensures
        inv(*def, engine_model(*final(st), *final(queue))),
        (engine_model(*final(st), *final(queue)), res) == crate::sem::region_step(
            *def,
            engine_model(*old(st), *old(queue)),
            r as int,
            *ev,
        ),
        final(st).timers.pending_view() == old(st).timers.pending_view(),
    decreases def.machine_count - crate::sem::region_machine_c(*def, r as int), 7int, 0int,
{
    let ghost m0 = engine_model(*old(st), *old(queue));
    let s = match st.current[r] {
        FsmCurrentState::Stopped => {
            return Err(FsmError::NoTransition);
        },
        FsmCurrentState::State(s) => s,
    };
    let mach = def.regions[r].machine;
    proof {
        assert(crate::defs::wf_state(*def, s as int));
        assert(crate::defs::wf_region(*def, def.states@[s as int].region as int));
        assert(crate::sem::machine_of_state_c(*def, s as int) == mach as int);
        assert(crate::sem::region_machine_c(*def, r as int) == mach as int);
    }
    // Sub-machine routing.
    let mut routed: FsmResult<()> = Err(FsmError::NoTransition);
    match def.states[s].kind {
        StateKind::SubMachine(sm) => {
            if mach < sm && sm < def.machine_count {
                proof {
                    assert(crate::sem::sub_machine_of(*def, s as int, mach as int) == Some(
                        sm as int,
                    ));
                }
                if st.started[sm] {
                    let sub_scope = insp.for_sub_machine(scope, sm);
                    routed = dispatch_machine_exec(def, st, queue, insp, sm, ev, &sub_scope);
                }
            }
        },
        StateKind::Normal => {},
    }
    match routed {
        Err(FsmError::NoTransition) => {},
        other => {
            return other;
        },
    }
    let found = find_transition_exec(def, st, queue, insp, s, ev, scope);
    match found {
        None => Err(FsmError::NoTransition),
        Some(t) => {
            let tscope = insp.for_transition(scope, t);
            run_transition_exec(def, st, queue, insp, r, t, ev, &tscope)
        },
    }
}

/// Executes a matched transition, as `run_transition` describes.
pub(crate) fn run_transition_exec<Q: FsmEventQueue, I: Inspect>(
    def: &FsmDef,
    st: &mut MachineState,
    queue: &mut Q,
    insp: &mut I,
    r: usize,
    t: usize,
    ev: &FsmEvent,
    scope: &InspectScope,
) -> (res: FsmResult<()>)
    requires
        inv(*def, engine_model(*old(st), *old(queue))),
        r < def.regions@.len(),
        t < def.transitions@.len(),
        def.states@[def.transitions@[t as int].source as int].region == r,
    ensures
        inv(*def, engine_model(*final(st), *final(queue))),
        (engine_model(*final(st), *final(queue)), res) == crate::sem::run_transition(
            *def,
            engine_model(*old(st), *old(queue)),
            r as int,
            t as int,
            *ev,
        ),
        final(st).timers.pending_view() == old(st).timers.pending_view(),
    decreases def.machine_count - crate::sem::region_machine_c(*def, r as int), 6int, 0int,
{
    let ghost m0 = engine_model(*old(st), *old(queue));
    proof {
        assert(crate::defs::wf_transition(*def, t as int));
        assert(crate::defs::wf_region(*def, r as int));
    }
    let internal = def.transitions[t].internal;
    if internal {
        insp.on_action(scope, t);
        let acted = apply_ops_exec(def, st, queue, &def.transitions[t].action, ev);
        match acted {
            Some(e) => Err(e),
            None => Ok(()),
        }
    } else {
        let source = def.transitions[t].source;
        let target = def.transitions[t].target;
        let mach = def.regions[r].machine;
        proof {
            assert(crate::sem::region_machine_c(*def, r as int) == mach as int);
            assert(crate::sem::machine_of_state_c(*def, source as int) == mach as int);
            assert(crate::sem::machine_of_state_c(*def, target as int) == mach as int);
        }
        let exited = exit_state_exec(def, st, queue, insp, source, ev, scope);
        match exited {
            Some(e) => {
                return Err(e);
            },
            None => {},
        }
        insp.on_action(scope, t);
        let acted = apply_ops_exec(def, st, queue, &def.transitions[t].action, ev);
        match acted {
            Some(e) => {
                return Err(e);
            },
            None => {},
        }
        // The entry half: a fresh move into a sub-machine slot starts the
        // sub-machine in place of the generic entry hook.
        let ghost m_entry = engine_model(*st, *queue);
        let mut entered: Option<FsmError> = None;
        let mut fresh_sub = false;
        match def.states[target].kind {
            StateKind::SubMachine(sm) => {
                if mach < sm && sm < def.machine_count {
                    proof {
                        assert(crate::sem::sub_machine_of(*def, target as int, mach as int)
                            == Some(sm as int));
                    }
                    if !def.transitions[t].shallow_history {
                        fresh_sub = true;
                        entered = start_sub_machine_exec(def, st, queue, insp, sm, scope);
                    }
                }
            },
            StateKind::Normal => {},
        }
        if !fresh_sub {
            entered = enter_state_exec(def, st, queue, insp, target, ev, scope);
        }
        proof {
            assert((engine_model(*st, *queue), entered) == crate::sem::enter_target(
                *def,
                m_entry,
                t as int,
                *ev,
                mach as int,
            ));
        }
        let ghost m_done = engine_model(*st, *queue);
        st.current.set(r, FsmCurrentState::State(target));
        proof {
            assert(engine_model(*st, *queue) =~= crate::sem::with_current(
                m_done,
                m_done.current.update(r as int, FsmCurrentState::State(target)),
            ));
        }
        match entered {
            Some(e) => Err(e),
            None => Ok(()),
        }
    }
}

/// Folds the regions of machine `mach` over the event, as
/// `dispatch_regions` describes: every region evaluated, first hard error
/// recorded.
pub(crate) fn dispatch_regions_exec<Q: FsmEventQueue, I: Inspect>(
    def: &FsmDef,
    st: &mut MachineState,
    queue: &mut Q,
    insp: &mut I,
    mach: usize,
    ev: &FsmEvent,
    scope: &InspectScope,
) -> (out: (bool, Option<FsmError>))
    requires
        inv(*def, engine_model(*old(st), *old(queue))),
        mach < def.machine_count,
    ensures
        inv(*def, engine_model(*final(st), *final(queue))),
        (engine_model(*final(st), *final(queue)), out.0, out.1) == crate::sem::dispatch_regions(
            *def,
            engine_model(*old(st), *old(queue)),
            mach as int,
            *ev,
            0,
        ),
        final(st).timers.pending_view() == old(st).timers.pending_view(),
    decreases def.machine_count - mach, 8int, 0int,
{
    let ghost m0 = engine_model(*old(st), *old(queue));
    let mut saw_ok = false;
    let mut hard: Option<FsmError> = None;
    let mut i: usize = 0;
    while i < def.regions.len()
        invariant
            i <= def.regions@.len(),
            mach < def.machine_count,
            m0 == engine_model(*old(st), *old(queue)),
            inv(*def, engine_model(*st, *queue)),
            crate::sem::dispatch_regions(*def, m0, mach as int, *ev, 0).0
                == crate::sem::dispatch_regions(
                *def,
                engine_model(*st, *queue),
                mach as int,
                *ev,
                i as int,
            ).0,
            crate::sem::dispatch_regions(*def, m0, mach as int, *ev, 0).1 == (saw_ok
                || crate::sem::dispatch_regions(
                *def,
                engine_model(*st, *queue),
                mach as int,
                *ev,
                i as int,
            ).1),
            crate::sem::dispatch_regions(*def, m0, mach as int, *ev, 0).2 == (if hard is Some {
                hard
            } else {
                crate::sem::dispatch_regions(
                    *def,
                    engine_model(*st, *queue),
                    mach as int,
                    *ev,
                    i as int,
                ).2
            }),
            st.timers.pending_view() == old(st).timers.pending_view(),
        decreases def.regions@.len() - i,
    {
        let ghost m_before = engine_model(*st, *queue);
        if def.regions[i].machine == mach {
            proof {
                assert(crate::defs::wf_region(*def, i as int));
                assert(crate::sem::region_machine_c(*def, i as int) == mach as int);
            }
            let step = region_step_exec(def, st, queue, insp, i, ev, scope);
            if step.is_ok() {
                saw_ok = true;
            }
            let step_hard = hard_err_exec(&step);
            if hard.is_none() {
                hard = step_hard;
            }
        }
        i = i + 1;
    }
    (saw_ok, hard)
}

/// One dispatch pass of one event at machine `mach`, as `dispatch_machine`
/// describes: interrupt check, per-region matching and execution,
/// aggregation.
pub(crate) fn dispatch_machine_exec<Q: FsmEventQueue, I: Inspect>(
    def: &FsmDef,
    st: &mut MachineState,
    queue: &mut Q,
    insp: &mut I,
    mach: usize,
    ev: &FsmEvent,
    scope: &InspectScope,
) -> (res: FsmResult<()>)
    requires
        inv(*def, engine_model(*old(st), *old(queue))),
        mach < def.machine_count,
    ensures
        inv(*def, engine_model(*final(st), *final(queue))),
        (engine_model(*final(st), *final(queue)), res) == crate::sem::dispatch_machine(
            *def,
            engine_model(*old(st), *old(queue)),
            mach as int,
            *ev,
        ),
        final(st).timers.pending_view() == old(st).timers.pending_view(),
    decreases def.machine_count - mach, 9int, 0int,
{
    if interrupted_exec(def, st, queue, mach, ev) {
        let e = FsmError::Interrupted;
        insp.on_error(scope, &e);
        return Err(e);
    }
    let folded = dispatch_regions_exec(def, st, queue, insp, mach, ev, scope);
    match folded.1 {
        Some(e) => {
            insp.on_error(scope, &e);
            Err(e)
        },
        None => {
            if folded.0 {
                Ok(())
            } else {
                let e = FsmError::NoTransition;
                insp.on_error(scope, &e);
                Err(e)
            }
        },
    }
}

/// The per-region state vector of the root machine, in declared region
/// order.
pub(crate) fn current_states_exec<Q: FsmEventQueue>(
    def: &FsmDef,
    st: &MachineState,
    queue: &Q,
) -> (r: Vec<FsmCurrentState>)
    requires
        inv(*def, engine_model(*st, *queue)),
    ensures
        r@ == crate::sem::spec_current_states(*def, engine_model(*st, *queue), 0),
{
    let mut out: Vec<FsmCurrentState> = Vec::new();
    let mut i: usize = 0;
    while i < def.regions.len()
        invariant
            i <= def.regions@.len(),
            inv(*def, engine_model(*st, *queue)),
            crate::sem::spec_current_states(*def, engine_model(*st, *queue), 0) == out@
                + crate::sem::spec_current_states(*def, engine_model(*st, *queue), i as int),
        decreases def.regions@.len() - i,
    {
        if def.regions[i].machine == 0 {
            out.push(st.current[i]);
        }
        i = i + 1;
    }
    proof {
        assert(crate::sem::spec_current_states(*def, engine_model(*st, *queue), 0) =~= out@);
    }
    out
}

/// Drains the queue: serves one queued event after another until the queue
/// is empty (or the drain budget, practically unreachable, runs out), as
/// `spec_drain` with the engine's budget describes.
pub(crate) fn drain_exec<Q: FsmEventQueue, I: Inspect>(
    def: &FsmDef,
    st: &mut MachineState,
    queue: &mut Q,
    insp: &mut I,
    scope: &InspectScope,
) -> (u: ())
    requires
        inv(*def, engine_model(*old(st), *old(queue))),
    ensures
        inv(*def, engine_model(*final(st), *final(queue))),
        engine_model(*final(st), *final(queue)) == crate::sem::spec_drain(
            *def,
            engine_model(*old(st), *old(queue)),
            crate::sem::drain_budget(),
        ),
        final(st).timers.pending_view() == old(st).timers.pending_view(),
{
    let ghost m0 = engine_model(*old(st), *old(queue));
    let mut budget: u64 = u64::MAX;
    loop
        invariant
            m0 == engine_model(*old(st), *old(queue)),
            inv(*def, engine_model(*st, *queue)),
            crate::sem::spec_drain(*def, m0, crate::sem::drain_budget()) == crate::sem::spec_drain(
                *def,
                engine_model(*st, *queue),
                budget as nat,
            ),
            st.timers.pending_view() == old(st).timers.pending_view(),
        ensures
            inv(*def, engine_model(*st, *queue)),
            engine_model(*st, *queue) == crate::sem::spec_drain(
                *def,
                m0,
                crate::sem::drain_budget(),
            ),
            st.timers.pending_view() == old(st).timers.pending_view(),
        decreases budget,
    {
        if budget == 0 {
            break ;
        }
        let ghost m_before = engine_model(*st, *queue);
        let served = queue.dequeue();
        match served {
            None => {
                proof {
                    assert(engine_model(*st, *queue) == m_before);
                    assert(crate::sem::spec_drain(*def, m_before, budget as nat) == m_before);
                }
                break ;
            },
            Some(ev) => {
                proof {
                    assert(engine_model(*st, *queue) =~= crate::sem::with_queue(
                        m_before,
                        m_before.queue.drop_first(),
                    ));
                }
                let dscope = insp.new_event(scope, &ev);
                let _ = dispatch_machine_exec(def, st, queue, insp, 0, &ev, &dscope);
                let states = current_states_exec(def, st, queue);
                insp.event_done(dscope, &states);
                budget = budget - 1;
            },
        }
    }
}

/// A complete machine instance: the validated definition, the live state,
/// the queue backend and the inspection observer, with the queue-draining
/// policy flags.
pub struct FsmMachine<Q: FsmEventQueue, I: Inspect> {
    def: FsmDef,
    st: MachineState,
    queue: Q,
    inspect: I,
    execute_queue_pre: bool,
    execute_queue_post: bool,
}

impl<Q: FsmEventQueue, I: Inspect> FsmMachine<Q, I> {
    /// The validated definition tables.
    pub closed spec fn spec_def(self) -> FsmDef {
        self.def
    }

    /// The machine's mutable half, as mathematical values.
    pub closed spec fn model(self) -> Model {
        engine_model(self.st, self.queue)
    }

    /// The fired timer ids not yet served by the timer-event sweep.
    pub closed spec fn pending(self) -> Seq<usize> {
        self.st.timers.pending_view()
    }

    /// The machine's invariant: a well-formed definition and a model shaped
    /// by it.
    pub open spec fn wf(self) -> bool {
        inv(self.spec_def(), self.model())
    }

    /// Whether a dispatch call drains the queue before the event.
    pub closed spec fn pre_flag(self) -> bool {
        self.execute_queue_pre
    }

    /// Whether a dispatch call drains the queue after the event.
    pub closed spec fn post_flag(self) -> bool {
        self.execute_queue_post
    }

    /// Reads the queue-draining policy flags (pre-drain, post-drain).
    pub fn queue_drain_policy(&self) -> (p: (bool, bool))
        ensures
            p == (self.pre_flag(), self.post_flag()),
    {
        (self.execute_queue_pre, self.execute_queue_post)
    }

    /// Sets the queue-draining policy flags, leaving everything else as it
    /// was.
    pub fn set_queue_drain_policy(&mut self, pre: bool, post: bool)
        ensures
            final(self).pre_flag() == pre,
            final(self).post_flag() == post,
            final(self).spec_def() == old(self).spec_def(),
            final(self).model() == old(self).model(),
            final(self).pending() == old(self).pending(),
    {
        self.execute_queue_pre = pre;
        self.execute_queue_post = post;
    }

    /// What every mutating call leaves untouched: the definition and the
    /// policy flags.
    pub open spec fn frame(pre: Self, post: Self) -> bool {
        &&& post.spec_def() == pre.spec_def()
        &&& post.pre_flag() == pre.pre_flag()
        &&& post.post_flag() == pre.post_flag()
    }

    /// Builds a machine over a definition, a queue backend and an
    /// inspection observer. The definition is validated here, once; a
    /// malformed one is rejected with `NotSupported`. A fresh machine
    /// already holds each region's declared initial state (entry hooks have
    /// not run yet — `start` runs them), with zeroed state data and context,
    /// no armed timer, and queue pre-drain enabled (the post-drain flag is
    /// off).
    pub fn new_with(def: FsmDef, queue: Q, inspect: I) -> (r: FsmResult<FsmMachine<Q, I>>)
        ensures
            r is Ok <==> wf_def(def),
            r matches Err(e) ==> e == FsmError::NotSupported,
            r matches Ok(m) ==> {
                &&& m.wf()
                &&& m.spec_def() == def
                &&& m.pre_flag() == true
                &&& m.post_flag() == false
                &&& m.model().current == Seq::new(
                    def.regions@.len(),
                    |i: int| FsmCurrentState::State(def.regions@[i].initial),
                )
                &&& m.model().store == Seq::new(
                    def.states@.len(),
                    |i: int| Seq::new(def.states@[i].data_len as nat, |j: int| 0u64),
                )
                &&& m.model().context == Seq::new(def.context_len as nat, |i: int| 0u64)
                &&& m.model().started == Seq::new(def.machine_count as nat, |i: int| false)
                &&& m.model().timers == Seq::new(
                    def.timers@.len(),
                    |i: int| None::<crate::timers::CoreTimer>,
                )
                &&& m.model().queue == queue.contents()
                &&& m.model().qmode == queue.mode()
                &&& m.pending() == Seq::<usize>::empty()
            },
    {
        if !check_def(&def) {
            return Err(FsmError::NotSupported);
        }
        let mut current: Vec<FsmCurrentState> = Vec::new();
        let mut r: usize = 0;
        while r < def.regions.len()
            invariant
                r <= def.regions@.len(),
                current@.len() == r,
                forall|j: int|
                    0 <= j < r ==> current@[j] == FsmCurrentState::State(
                        def.regions@[j].initial,
                    ),
            decreases def.regions@.len() - r,
        {
            current.push(FsmCurrentState::State(def.regions[r].initial));
            r = r + 1;
        }
        let mut store: Vec<Vec<u64>> = Vec::new();
        let mut i: usize = 0;
        while i < def.states.len()
            invariant
                i <= def.states@.len(),
                store@.len() == i,
                forall|j: int|
                    0 <= j < i ==> #[trigger] store@[j]@ == Seq::new(
                        def.states@[j].data_len as nat,
                        |k: int| 0u64,
                    ),
            decreases def.states@.len() - i,
        {
            let row: Vec<u64> = vec![0u64; def.states[i].data_len];
            store.push(row);
            i = i + 1;
        }
        let context: Vec<u64> = vec![0u64; def.context_len];
        let started: Vec<bool> = vec![false; def.machine_count];
        let timers = TimersCore::new(def.timers.len());
        let st = MachineState { current, store, context, started, timers };
        let m = FsmMachine {
            def,
            st,
            queue,
            inspect,
            execute_queue_pre: true,
            execute_queue_post: false,
        };
        proof {
            assert(m.model().current =~= Seq::new(
                m.def.regions@.len(),
                |i: int| FsmCurrentState::State(m.def.regions@[i].initial),
            ));
            assert(m.model().store =~= Seq::new(
                m.def.states@.len(),
                |i: int| Seq::new(m.def.states@[i].data_len as nat, |j: int| 0u64),
            ));
            assert forall|j: int| 0 <= j < m.model().current.len() implies match #[trigger] m.model().current[j] {
                FsmCurrentState::Stopped => true,
                FsmCurrentState::State(s) => s < m.def.states@.len() && m.def.states@[s as int].region == j,
            } by {
                assert(crate::defs::wf_region(m.def, j));
            }
            assert(m.wf());
        }
        Ok(m)
    }

    /// Starts the machine: every root region enters its initial state (with
    /// a synthetic `NoEvent` context), then `NoEvent` passes run until no
    /// further eventless transition fires. A failing entry hook surfaces its
    /// error; the passes' own outcomes are informational.
    pub fn start(&mut self) -> (r: FsmResult<()>)
        requires
            old(self).wf(),
        ensures
            final(self).wf(),
            Self::frame(*old(self), *final(self)),
            final(self).pending() == old(self).pending(),
            match crate::sem::spec_start_root(old(self).spec_def(), old(self).model()) {
                (m1, Some(e)) => r == Err::<(), FsmError>(e) && final(self).model() == m1,
                (m1, None) => r is Ok && final(self).model() == crate::sem::spec_anon_passes(
                    old(self).spec_def(),
                    m1,
                    crate::sem::drain_budget(),
                ).0,
            },
    {
        let scope = InspectScope::root();
        self.st.started.set(0, true);
        proof {
            assert(engine_model(self.st, self.queue) =~= crate::sem::with_started(
                old(self).model(),
                old(self).model().started.update(0, true),
            ));
        }
        let begun = start_regions_exec(
            &self.def,
            &mut self.st,
            &mut self.queue,
            &mut self.inspect,
            0,
            &scope,
        );
        match begun {
            Some(e) => {
                return Err(e);
            },
            None => {},
        }
        let ghost m1 = engine_model(self.st, self.queue);
        let no_ev = FsmEvent::NoEvent;
        let mut budget: u64 = u64::MAX;
        loop
            invariant_except_break
                crate::sem::spec_anon_passes(self.def, m1, crate::sem::drain_budget()).0
                    == crate::sem::spec_anon_passes(
                    self.def,
                    engine_model(self.st, self.queue),
                    budget as nat,
                ).0,
            invariant
                self.wf(),
                self.def == old(self).spec_def(),
                no_ev == FsmEvent::NoEvent,
                self.st.timers.pending_view() == old(self).pending(),
                self.execute_queue_pre == old(self).execute_queue_pre,
                self.execute_queue_post == old(self).execute_queue_post,
            ensures
                self.wf(),
                self.def == old(self).spec_def(),
                engine_model(self.st, self.queue) == crate::sem::spec_anon_passes(
                    self.def,
                    m1,
                    crate::sem::drain_budget(),
                ).0,
                self.st.timers.pending_view() == old(self).pending(),
                self.execute_queue_pre == old(self).execute_queue_pre,
                self.execute_queue_post == old(self).execute_queue_post,
            decreases budget,
        {
            if budget == 0 {
                break ;
            }
            let ghost m_before = engine_model(self.st, self.queue);
            let ghost b0 = budget;
            let dscope = self.inspect.new_event(&scope, &no_ev);
            let pass = dispatch_machine_exec(
                &self.def,
                &mut self.st,
                &mut self.queue,
                &mut self.inspect,
                0,
                &no_ev,
                &dscope,
            );
            let states = current_states_exec(&self.def, &self.st, &self.queue);
            self.inspect.event_done(dscope, &states);
            match pass {
                Ok(()) => {
                    proof {
                        assert(crate::sem::spec_anon_passes(self.def, m_before, b0 as nat)
                            == crate::sem::spec_anon_passes(
                            self.def,
                            engine_model(self.st, self.queue),
                            (b0 - 1) as nat,
                        ));
                    }
                },
                Err(_) => {
                    proof {
                        assert(crate::sem::spec_anon_passes(self.def, m_before, b0 as nat) == (
                            engine_model(self.st, self.queue),
                            true,
                        ));
                    }
                    break ;
                },
            }
            budget = budget - 1;
        }
        Ok(())
    }

    /// Stops the machine for teardown: the exit hooks of every root
    /// region's current state run (and recursively those of started
    /// sub-machines), without changing the state vector.
    pub fn stop(&mut self) -> (r: FsmResult<()>)
        requires
            old(self).wf(),
        ensures
            final(self).wf(),
            Self::frame(*old(self), *final(self)),
            final(self).pending() == old(self).pending(),
            match crate::sem::exit_regions(old(self).spec_def(), old(self).model(), 0, 0) {
                (m2, Some(e)) => r == Err::<(), FsmError>(e) && final(self).model() == m2,
                (m2, None) => r is Ok && final(self).model() == m2,
            },
    {
        let scope = InspectScope::root();
        let e = exit_regions_exec(
            &self.def,
            &mut self.st,
            &mut self.queue,
            &mut self.inspect,
            0,
            &scope,
        );
        match e {
            Some(err) => Err(err),
            None => Ok(()),
        }
    }

    /// Dispatches one event: optional pre-drain of queued events, the
    /// interrupt check and per-region transition protocol whose aggregate
    /// result is returned, then optional post-drain.
    pub fn dispatch(&mut self, ev: FsmEvent) -> (r: FsmResult<()>)
        requires
            old(self).wf(),
        ensures
            final(self).wf(),
            Self::frame(*old(self), *final(self)),
            final(self).pending() == old(self).pending(),
            (final(self).model(), r) == crate::sem::spec_dispatch_full(
                old(self).spec_def(),
                old(self).model(),
                ev,
                old(self).pre_flag(),
                old(self).post_flag(),
            ),
    {
        let scope = InspectScope::root();
        if self.execute_queue_pre {
            drain_exec(&self.def, &mut self.st, &mut self.queue, &mut self.inspect, &scope);
        }
        let dscope = self.inspect.new_event(&scope, &ev);
        let res = dispatch_machine_exec(
            &self.def,
            &mut self.st,
            &mut self.queue,
            &mut self.inspect,
            0,
            &ev,
            &dscope,
        );
        if self.execute_queue_post {
            drain_exec(&self.def, &mut self.st, &mut self.queue, &mut self.inspect, &scope);
        }
        let states = current_states_exec(&self.def, &self.st, &self.queue);
        self.inspect.event_done(dscope, &states);
        res
    }

    /// Drains and dispatches all currently queued events.
    pub fn execute_queued_events(&mut self)
        requires
            old(self).wf(),
        ensures
            final(self).wf(),
            Self::frame(*old(self), *final(self)),
            final(self).pending() == old(self).pending(),
            final(self).model() == crate::sem::spec_drain(
                old(self).spec_def(),
                old(self).model(),
                crate::sem::drain_budget(),
            ),
    {
        let scope = InspectScope::root();
        drain_exec(&self.def, &mut self.st, &mut self.queue, &mut self.inspect, &scope);
    }

    /// Serves every pending fired timer id: each one's synthetic timeout
    /// event is dispatched at the machine owning the timer, until none
    /// remains or a hard error surfaces; a timeout event with no matching
    /// transition is informational. Events enqueued by timer actions are
    /// then drained if the post-drain policy is on.
    pub fn dispatch_timer_events(&mut self) -> (r: FsmResult<()>)
        requires
            old(self).wf(),
        ensures
            final(self).wf(),
            Self::frame(*old(self), *final(self)),
            match crate::sem::spec_timer_sweep(
                old(self).spec_def(),
                old(self).model(),
                old(self).pending(),
            ) {
                (m2, p2, Some(e)) => r == Err::<(), FsmError>(e) && final(self).model() == m2
                    && final(self).pending() == p2,
                (m2, p2, None) => r is Ok && final(self).pending() == p2 && final(self).model()
                    == if old(self).post_flag() {
                    crate::sem::spec_drain(old(self).spec_def(), m2, crate::sem::drain_budget())
                } else {
                    m2
                },
            },
    {
        let scope = InspectScope::root();
        loop
            invariant
                self.wf(),
                self.def == old(self).spec_def(),
                self.execute_queue_pre == old(self).execute_queue_pre,
                self.execute_queue_post == old(self).execute_queue_post,
                crate::sem::spec_timer_sweep(self.def, old(self).model(), old(self).pending())
                    == crate::sem::spec_timer_sweep(
                    self.def,
                    engine_model(self.st, self.queue),
                    self.st.timers.pending_view(),
                ),
            ensures
                self.wf(),
                self.def == old(self).spec_def(),
                self.execute_queue_pre == old(self).execute_queue_pre,
                self.execute_queue_post == old(self).execute_queue_post,
                crate::sem::spec_timer_sweep(self.def, old(self).model(), old(self).pending())
                    == (engine_model(self.st, self.queue), self.st.timers.pending_view(), None::<
                    FsmError,
                >),
            decreases self.st.timers.pending_view().len(),
        {
            let ghost p_before = self.st.timers.pending_view();
            let served = self.st.timers.get_triggered_timer();
            let id = match served {
                None => {
                    proof {
                        assert(crate::sem::spec_timer_sweep(
                            self.def,
                            engine_model(self.st, self.queue),
                            p_before,
                        ) == (engine_model(self.st, self.queue), p_before, None::<FsmError>));
                    }
                    break ;
                },
                Some(id) => id,
            };
            let mach = if id < self.def.timers.len() {
                self.def.timers[id].machine
            } else {
                0
            };
            let tscope = self.inspect.for_timer(&scope, id);
            let ev = FsmEvent::Timer(id);
            let dscope = self.inspect.new_event(&tscope, &ev);
            let step = dispatch_machine_exec(
                &self.def,
                &mut self.st,
                &mut self.queue,
                &mut self.inspect,
                mach,
                &ev,
                &dscope,
            );
            let states = current_states_exec(&self.def, &self.st, &self.queue);
            self.inspect.event_done(dscope, &states);
            match hard_err_exec(&step) {
                Some(e) => {
                    return Err(e);
                },
                None => {},
            }
        }
        if self.execute_queue_post {
            drain_exec(&self.def, &mut self.st, &mut self.queue, &mut self.inspect, &scope);
        }
        Ok(())
    }

    /// The per-region state vector of the root machine, in declared region
    /// order. A pure read: without an intervening mutation, repeated calls
    /// yield identical results.
    pub fn get_current_states(&self) -> (r: Vec<FsmCurrentState>)
        requires
            self.wf(),
        ensures
            r@ == crate::sem::spec_current_states(self.spec_def(), self.model(), 0),
    {
        current_states_exec(&self.def, &self.st, &self.queue)
    }

    /// How many fired timer ids wait to be served by the timer-event
    /// sweep.
    pub fn pending_timer_count(&self) -> (n: usize)
        ensures
            n == self.pending().len(),
    {
        self.st.timers.pending_count()
    }

    /// One region's current-state slot, for any declared region — including
    /// those of embedded sub-machines.
    pub fn region_state(&self, r: usize) -> (c: FsmCurrentState)
        requires
            self.wf(),
            r < self.spec_def().regions@.len(),
        ensures
            c == self.model().current[r as int],
    {
        self.st.current[r]
    }

    /// Whether a machine of the definition has been started; a started
    /// sub-machine holds its history.
    pub fn machine_started(&self, m: usize) -> (b: bool)
        requires
            self.wf(),
            m < self.spec_def().machine_count,
        ensures
            b == self.model().started[m as int],
    {
        self.st.started[m]
    }

    /// Typed access into the state store: the data word `index` of state
    /// `state`.
    pub fn state_data(&self, state: usize, index: usize) -> (v: u64)
        requires
            self.wf(),
            state < self.spec_def().states@.len(),
            index < self.spec_def().states@[state as int].data_len,
        ensures
            v == self.model().store[state as int][index as int],
    {
        proof {
            assert(self.st.store@.len() == self.model().store.len());
            assert(self.model().store[state as int] == self.st.store@[state as int]@);
        }
        self.st.store[state][index]
    }

    /// The context word `index`.
    pub fn context_data(&self, index: usize) -> (v: u64)
        requires
            self.wf(),
            index < self.spec_def().context_len,
        ensures
            v == self.model().context[index as int],
    {
        self.st.context[index]
    }

    /// Injects an event directly into the queue, under the backend's
    /// capacity-checked contract.
    pub fn enqueue(&mut self, ev: FsmEvent) -> (r: FsmResult<()>)
        requires
            old(self).wf(),
        ensures
            final(self).wf(),
            Self::frame(*old(self), *final(self)),
            final(self).pending() == old(self).pending(),
            (final(self).model().queue, r) == crate::queue::spec_enqueue(
                old(self).model().qmode,
                old(self).model().queue,
                ev,
            ),
            final(self).model() == crate::sem::with_queue(
                old(self).model(),
                final(self).model().queue,
            ),
    {
        let r = self.queue.enqueue(ev);
        proof {
            assert(engine_model(self.st, self.queue) =~= crate::sem::with_queue(
                old(self).model(),
                engine_model(self.st, self.queue).queue,
            ));
        }
        r
    }

    /// Advances every declared timer by the elapsed milliseconds, as the
    /// timer subsystem's `tick` describes. The pending buffer must have
    /// room for every timer that fires: exceeding its fixed capacity is a
    /// configuration error, excluded here rather than handled at run time.
    pub fn tick(&mut self, elapsed: u64)
        requires
            old(self).wf(),
            crate::timers::tick_fits(old(self).model().timers, old(self).pending(), elapsed),
        ensures
            final(self).wf(),
            Self::frame(*old(self), *final(self)),
            (final(self).model().timers, final(self).pending()) == crate::timers::spec_tick(
                old(self).model().timers,
                old(self).pending(),
                elapsed,
                0,
            ),
            final(self).model() == crate::sem::with_timers(
                old(self).model(),
                final(self).model().timers,
            ),
    {
        self.st.timers.tick(elapsed);
        proof {
            crate::timers::lemma_spec_tick_len(
                old(self).model().timers,
                old(self).pending(),
                elapsed,
                0,
            );
            assert(engine_model(self.st, self.queue) =~= crate::sem::with_timers(
                old(self).model(),
                engine_model(self.st, self.queue).timers,
            ));
        }
    }

    /// Borrows the inspection observer, for reading an accumulated record.
    pub fn inspect(&self) -> (i: &I) {
        &self.inspect
    }
}

} // verus!
