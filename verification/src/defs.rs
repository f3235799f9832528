//! The machine definition: the statically resolved tables that the dispatch
//! engine consumes. States, regions, transitions, timers and sub-machines are
//! referred to by index; guards and actions are small data-described
//! capability objects evaluated by the engine. The engine treats a
//! well-formed definition as fixed: it is validated once when a machine is
//! built and never mutated.

use vstd::prelude::*;

use crate::events::EventKey;
use crate::events::FsmEvent;

verus! {

/// A side-effect-free predicate gating whether a transition fires. Guards may
/// read the event's payload, the machine context and the data of any declared
/// state — across regions — but never mutate anything.
#[derive(Clone, Copy, Debug, PartialEq, Eq, Structural)]
pub enum GuardDef {
    /// No guard: the transition always fires.
    Always,
    /// The dispatched event is a domain event whose payload equals the value.
    PayloadEquals(u64),
    /// The dispatched event is a domain event whose payload is at least the
    /// value.
    PayloadAtLeast(u64),
    /// The data word `index` of state `state` is at least `min`.
    StateDataAtLeast { state: usize, index: usize, min: u64 },
    /// The context word `index` equals `value`.
    ContextEquals { index: usize, value: u64 },
    /// The context word `index` is at least `min`.
    ContextAtLeast { index: usize, min: u64 },
}

/// One step of an action, entry hook or exit hook. Additions saturate at the
/// integer's maximum. Hooks and actions may mutate state data and the
/// context, and may enqueue further events; they run in declaration order.
#[derive(Clone, Copy, Debug, PartialEq, Eq, Structural)]
pub enum ActionOp {
    /// Add one to the data word `index` of state `state`.
    IncStateData { state: usize, index: usize },
    /// Add the event's payload to the data word `index` of state `state`.
    AddPayloadToStateData { state: usize, index: usize },
    /// Store `value` into the data word `index` of state `state`.
    SetStateData { state: usize, index: usize, value: u64 },
    /// Add one to the context word `index`.
    IncContext { index: usize },
    /// Add the event's payload to the context word `index`.
    AddPayloadToContext { index: usize },
    /// Store `value` into the context word `index`.
    SetContext { index: usize, value: u64 },
    /// Enqueue an event for a later dispatch pass.
    EnqueueEvent(FsmEvent),
}

/// A declared transition. Static: the engine evaluates it and never mutates
/// it.
pub struct TransitionDef {
    /// The source state; the transition belongs to that state's region.
    pub source: usize,
    /// The event discriminant the transition is declared against.
    pub trigger: EventKey,
    /// The optional guard (`Always` when absent).
    pub guard: GuardDef,
    /// The action, run between the exit and entry hooks.
    pub action: Vec<ActionOp>,
    /// The target state, in the same region as the source.
    pub target: usize,
    /// An internal transition keeps the state unchanged and skips the exit
    /// and entry hooks; its target equals its source.
    pub internal: bool,
    /// When the target is a sub-machine slot: resume the sub-machine where it
    /// last was ("shallow history") instead of re-running its start.
    pub shallow_history: bool,
}

/// What a state is: a plain state, or a slot embedding a whole sub-machine.
#[derive(Clone, Copy, Debug, PartialEq, Eq, Structural)]
pub enum StateKind {
    Normal,
    /// The index of the embedded machine; always greater than the index of
    /// the machine the slot belongs to.
    SubMachine(usize),
}

/// A declared state.
pub struct StateDef {
    /// The region the state belongs to.
    pub region: usize,
    /// How many data words the state's persistent instance holds.
    pub data_len: usize,
    /// The entry hook, run when the state is entered.
    pub entry: Vec<ActionOp>,
    /// The exit hook, run when the state is left.
    pub exit: Vec<ActionOp>,
    /// Plain state or sub-machine slot.
    pub kind: StateKind,
    /// When set, the state is an interrupt state: while it is current, its
    /// machine dispatches only the whitelisted resume events and reports
    /// `Interrupted` for every other one.
    pub interrupt: Option<Vec<EventKey>>,
    /// The timers created when the state is entered.
    pub timers: Vec<usize>,
}

/// An independently transitioning slice of a machine's current-state vector.
pub struct RegionDef {
    /// The machine the region belongs to (0 is the root machine).
    pub machine: usize,
    /// The region's initial state.
    pub initial: usize,
}

/// The declared settings a timer is created with on state entry.
#[derive(Clone, Copy, Debug, PartialEq, Eq, Structural)]
pub struct TimerSettings {
    /// The countdown, in milliseconds.
    pub timeout: u64,
    /// Renewing timers re-arm every `timeout`; one-shot timers self-clear.
    pub renew: bool,
    /// Cancel the timer when the owning state is exited.
    pub cancel_on_state_exit: bool,
    /// A disabled timer is never installed.
    pub enabled: bool,
}

/// A declared timer. Timer ids of nested sub-machines are flattened into the
/// one id space `0..timers.len()`, enumerated in declaration order.
pub struct TimerDef {
    /// The machine whose dispatch consumes the timer's expiry event.
    pub machine: usize,
    /// The settings the timer is created with.
    pub settings: TimerSettings,
}

/// A complete machine definition: the root machine together with every
/// embedded sub-machine, sharing flattened state, region and timer id
/// spaces.
pub struct FsmDef {
    /// How many machines the definition holds; machine 0 is the root.
    pub machine_count: usize,
    /// Every region of every machine.
    pub regions: Vec<RegionDef>,
    /// Every state of every machine.
    pub states: Vec<StateDef>,
    /// Every declared transition, in declaration order. When several
    /// transitions of one state match an event, the first whose guard passes
    /// fires.
    pub transitions: Vec<TransitionDef>,
    /// Every timer, in declaration order.
    pub timers: Vec<TimerDef>,
    /// How many context words the machine's shared context holds.
    pub context_len: usize,
}

/// The machine a state belongs to.
pub open spec fn machine_of_state(def: FsmDef, s: int) -> int {
    def.regions@[def.states@[s].region as int].machine as int
}

/// Validity of one guard: every state, data and context index it reads is
/// declared.
pub open spec fn wf_guard(def: FsmDef, g: GuardDef) -> bool {
    match g {
        GuardDef::Always => true,
        GuardDef::PayloadEquals(_) => true,
        GuardDef::PayloadAtLeast(_) => true,
        GuardDef::StateDataAtLeast { state, index, min } => state < def.states@.len()
            && index < def.states@[state as int].data_len,
        GuardDef::ContextEquals { index, value } => index < def.context_len,
        GuardDef::ContextAtLeast { index, min } => index < def.context_len,
    }
}

/// Validity of one action step: every state, data and context index it
/// touches is declared.
pub open spec fn wf_op(def: FsmDef, op: ActionOp) -> bool {
    match op {
        ActionOp::IncStateData { state, index } => state < def.states@.len() && index
            < def.states@[state as int].data_len,
        ActionOp::AddPayloadToStateData { state, index } => state < def.states@.len() && index
            < def.states@[state as int].data_len,
        ActionOp::SetStateData { state, index, value } => state < def.states@.len() && index
            < def.states@[state as int].data_len,
        ActionOp::IncContext { index } => index < def.context_len,
        ActionOp::AddPayloadToContext { index } => index < def.context_len,
        ActionOp::SetContext { index, value } => index < def.context_len,
        ActionOp::EnqueueEvent(_) => true,
    }
}

pub open spec fn wf_ops(def: FsmDef, ops: Seq<ActionOp>) -> bool {
    forall|i: int| 0 <= i < ops.len() ==> wf_op(def, ops[i])
}

/// Validity of one region: it belongs to a declared machine and its initial
/// state is one of its own member states.
pub open spec fn wf_region(def: FsmDef, r: int) -> bool {
    &&& def.regions@[r].machine < def.machine_count
    &&& def.regions@[r].initial < def.states@.len()
    &&& def.states@[def.regions@[r].initial as int].region == r
}

/// Validity of one state: its region is declared, its hooks are valid, its
/// timers are declared and owned by its machine, and a sub-machine slot
/// points at a strictly later machine (sub-machines are owned, never shared,
/// so the machine graph is a forest ordered by index).
pub open spec fn wf_state(def: FsmDef, s: int) -> bool {
    &&& def.states@[s].region < def.regions@.len()
    &&& wf_ops(def, def.states@[s].entry@)
    &&& wf_ops(def, def.states@[s].exit@)
    &&& (forall|i: int|
        0 <= i < def.states@[s].timers@.len() ==> {
            &&& #[trigger] def.states@[s].timers@[i] < def.timers@.len()
            &&& def.timers@[def.states@[s].timers@[i] as int].machine as int == machine_of_state(
                def,
                s,
            )
        })
    &&& match def.states@[s].kind {
        StateKind::Normal => true,
        StateKind::SubMachine(m) => m < def.machine_count && machine_of_state(def, s) < m,
    }
}

/// Validity of one transition: source and target are declared states of the
/// same region, the guard is valid, the action is valid, and an internal
/// transition is a self-transition.
pub open spec fn wf_transition(def: FsmDef, t: int) -> bool {
    &&& def.transitions@[t].source < def.states@.len()
    &&& def.transitions@[t].target < def.states@.len()
    &&& def.states@[def.transitions@[t].target as int].region
        == def.states@[def.transitions@[t].source as int].region
    &&& wf_guard(def, def.transitions@[t].guard)
    &&& wf_ops(def, def.transitions@[t].action@)
    &&& (def.transitions@[t].internal ==> def.transitions@[t].target
        == def.transitions@[t].source)
}

/// A well-formed definition: every table entry refers only to declared
/// indices, consistently.
pub open spec fn wf_def(def: FsmDef) -> bool {
    &&& def.machine_count >= 1
    &&& (forall|r: int| 0 <= r < def.regions@.len() ==> wf_region(def, r))
    &&& (forall|s: int| 0 <= s < def.states@.len() ==> wf_state(def, s))
    &&& (forall|t: int| 0 <= t < def.transitions@.len() ==> wf_transition(def, t))
    &&& (forall|i: int| 0 <= i < def.timers@.len() ==> def.timers@[i].machine < def.machine_count)
}

fn check_guard(def: &FsmDef, g: &GuardDef) -> (b: bool)
    ensures
        b == wf_guard(*def, *g),
{
    match g {
        GuardDef::Always => true,
        GuardDef::PayloadEquals(_) => true,
        GuardDef::PayloadAtLeast(_) => true,
        GuardDef::StateDataAtLeast { state, index, min } => *state < def.states.len() && *index
            < def.states[*state].data_len,
        GuardDef::ContextEquals { index, value } => *index < def.context_len,
        GuardDef::ContextAtLeast { index, min } => *index < def.context_len,
    }
}

fn check_op(def: &FsmDef, op: &ActionOp) -> (b: bool)
    ensures
        b == wf_op(*def, *op),
{
    match op {
        ActionOp::IncStateData { state, index } => *state < def.states.len() && *index
            < def.states[*state].data_len,
        ActionOp::AddPayloadToStateData { state, index } => *state < def.states.len() && *index
            < def.states[*state].data_len,
        ActionOp::SetStateData { state, index, value } => *state < def.states.len() && *index
            < def.states[*state].data_len,
        ActionOp::IncContext { index } => *index < def.context_len,
        ActionOp::AddPayloadToContext { index } => *index < def.context_len,
        ActionOp::SetContext { index, value } => *index < def.context_len,
        ActionOp::EnqueueEvent(_) => true,
    }
}

fn check_ops(def: &FsmDef, ops: &Vec<ActionOp>) -> (b: bool)
    ensures
        b == wf_ops(*def, ops@),
{
    let mut i: usize = 0;
    while i < ops.len()
        invariant
            i <= ops.len(),
            forall|j: int| 0 <= j < i ==> wf_op(*def, ops@[j]),
        decreases ops.len() - i,
    {
        if !check_op(def, &ops[i]) {
            return false;
        }
        i = i + 1;
    }
    true
}

fn check_region(def: &FsmDef, r: usize) -> (b: bool)
    requires
        r < def.regions@.len(),
    ensures
        b == wf_region(*def, r as int),
{
    let rd = &def.regions[r];
    rd.machine < def.machine_count && rd.initial < def.states.len() && def.states[rd.initial].region
        == r
}

fn check_state(def: &FsmDef, s: usize) -> (b: bool)
    requires
        s < def.states@.len(),
    ensures
        b == wf_state(*def, s as int),
{
    let sd = &def.states[s];
    if sd.region >= def.regions.len() {
        return false;
    }
    if !check_ops(def, &sd.entry) {
        return false;
    }
    if !check_ops(def, &sd.exit) {
        return false;
    }
    let mach = def.regions[sd.region].machine;
    let mut i: usize = 0;
    while i < sd.timers.len()
        invariant
            i <= sd.timers@.len(),
            sd == &def.states@[s as int],
            sd.region < def.regions@.len(),
            mach as int == machine_of_state(*def, s as int),
            forall|j: int|
                0 <= j < i ==> {
                    &&& #[trigger] sd.timers@[j] < def.timers@.len()
                    &&& def.timers@[sd.timers@[j] as int].machine as int == machine_of_state(
                        *def,
                        s as int,
                    )
                },
        decreases sd.timers@.len() - i,
    {
        let t = sd.timers[i];
        if t >= def.timers.len() {
            return false;
        }
        if def.timers[t].machine != mach {
            return false;
        }
        i = i + 1;
    }
    match sd.kind {
        StateKind::Normal => true,
        StateKind::SubMachine(m) => m < def.machine_count && mach < m,
    }
}

fn check_transition(def: &FsmDef, t: usize) -> (b: bool)
    requires
        t < def.transitions@.len(),
    ensures
        b == wf_transition(*def, t as int),
{
    let td = &def.transitions[t];
    if td.source >= def.states.len() || td.target >= def.states.len() {
        return false;
    }
    if def.states[td.target].region != def.states[td.source].region {
        return false;
    }
    if !check_guard(def, &td.guard) {
        return false;
    }
    if !check_ops(def, &td.action) {
        return false;
    }
    !td.internal || td.target == td.source
}

/// Decides whether a definition is well-formed. The machine constructor
/// rejects a definition for which this is false; the dispatch engine performs
/// no further validation at run time.
pub fn check_def(def: &FsmDef) -> (b: bool)
    ensures
        b == wf_def(*def),
{
    if def.machine_count == 0 {
        return false;
    }
    let mut r: usize = 0;
    while r < def.regions.len()
        invariant
            r <= def.regions@.len(),
            forall|j: int| 0 <= j < r ==> wf_region(*def, j),
        decreases def.regions@.len() - r,
    {
        if !check_region(def, r) {
            return false;
        }
        r = r + 1;
    }
    let mut s: usize = 0;
    while s < def.states.len()
        invariant
            s <= def.states@.len(),
            forall|j: int| 0 <= j < def.regions@.len() ==> wf_region(*def, j),
            forall|j: int| 0 <= j < s ==> wf_state(*def, j),
        decreases def.states@.len() - s,
    {
        if !check_state(def, s) {
            return false;
        }
        s = s + 1;
    }
    let mut t: usize = 0;
    while t < def.transitions.len()
        invariant
            t <= def.transitions@.len(),
            forall|j: int| 0 <= j < def.regions@.len() ==> wf_region(*def, j),
            forall|j: int| 0 <= j < def.states@.len() ==> wf_state(*def, j),
            forall|j: int| 0 <= j < t ==> wf_transition(*def, j),
        decreases def.transitions@.len() - t,
    {
        if !check_transition(def, t) {
            return false;
        }
        t = t + 1;
    }
    let mut i: usize = 0;
    while i < def.timers.len()
        invariant
            i <= def.timers@.len(),
            forall|j: int| 0 <= j < def.regions@.len() ==> wf_region(*def, j),
            forall|j: int| 0 <= j < def.states@.len() ==> wf_state(*def, j),
            forall|j: int| 0 <= j < def.transitions@.len() ==> wf_transition(*def, j),
            forall|j: int| 0 <= j < i ==> def.timers@[j].machine < def.machine_count,
        decreases def.timers@.len() - i,
    {
        if def.timers[i].machine >= def.machine_count {
            return false;
        }
        i = i + 1;
    }
    true
}

} // verus!
