//! A second worked example, shaped for constrained targets: three states,
//! a guarded click transition and an internal transition on the enter key.
//! Pairs with the bounded queue backend and the null observer.

use vstd::prelude::*;

use crate::defs::ActionOp;
use crate::defs::FsmDef;
use crate::defs::GuardDef;
use crate::defs::RegionDef;
use crate::defs::StateDef;
use crate::defs::StateKind;
use crate::defs::TransitionDef;
use crate::events::DomainEvent;
use crate::events::EventKey;
use crate::events::FsmEvent;
use crate::inspect::Inspect;
use crate::machine::FsmMachine;
use crate::queue::FsmEventQueue;
use crate::FsmBackend;

verus! {

/// The id of state A, the initial state.
pub const STATE_A: usize = 0;

/// The id of state B.
pub const STATE_B: usize = 1;

/// The id of state C.
pub const STATE_C: usize = 2;

/// The discriminant of the click event.
pub const EVENT_CLICK: usize = 0;

/// The discriminant of the enter event.
pub const EVENT_ENTER: usize = 1;

/// The machine's shared context.
#[derive(Clone, Copy, Debug, PartialEq, Eq, Structural)]
pub struct StateMachineContext {
    pub count: u64,
    pub total_time: u64,
}

/// State A's persistent data.
#[derive(Clone, Copy, Debug, PartialEq, Eq, Structural)]
pub struct StateA {
    pub enter: u64,
    pub exit: u64,
}

/// State B's persistent data.
#[derive(Clone, Copy, Debug, PartialEq, Eq, Structural)]
pub struct StateB {
    pub counter: u64,
}

/// State C carries no data.
#[derive(Clone, Copy, Debug, PartialEq, Eq, Structural)]
pub struct StateC {}

/// A click carrying the time it took.
#[derive(Clone, Copy, Debug, PartialEq, Eq, Structural)]
pub struct EventClick {
    pub time: u64,
}

/// The enter key, with its shift modifier.
#[derive(Clone, Copy, Debug, PartialEq, Eq, Structural)]
pub struct EventEnter {
    pub shift: bool,
}

impl EventClick {
    /// The event as the dispatch engine consumes it.
    pub fn to_event(&self) -> (ev: FsmEvent)
        ensures
            ev == FsmEvent::Event(
                DomainEvent { discriminant: EVENT_CLICK as usize, payload: self.time },
            ),
    {
        FsmEvent::Event(DomainEvent { discriminant: EVENT_CLICK, payload: self.time })
    }
}

impl EventEnter {
    /// The event as the dispatch engine consumes it: the shift modifier is
    /// the payload word.
    pub fn to_event(&self) -> (ev: FsmEvent)
        ensures
            ev == FsmEvent::Event(
                DomainEvent {
                    discriminant: EVENT_ENTER as usize,
                    payload: if self.shift {
                        1u64
                    } else {
                        0u64
                    },
                },
            ),
    {
        let payload: u64 = if self.shift {
            1
        } else {
            0
        };
        FsmEvent::Event(DomainEvent { discriminant: EVENT_ENTER, payload })
    }
}

/// Exactly the tables this builder declares, field by field: one region
/// starting at state A; a click with payload at least 101 moves A to B
/// accumulating the payload; `Enter` with payload 0 (no shift) bumps B's
/// counter on an internal transition; state C is declared and reachable
/// only by further declarations; no timers.
pub open spec fn embedded_def(def: FsmDef) -> bool {
    &&& def.machine_count == 1
    &&& def.context_len == 2
    &&& def.regions@.len() == 1
    &&& def.regions@[0].machine == 0
    &&& def.regions@[0].initial == STATE_A
    &&& def.states@.len() == 3
    &&& def.states@[STATE_A as int].region == 0
    &&& def.states@[STATE_A as int].data_len == 2
    &&& def.states@[STATE_A as int].kind == StateKind::Normal
    &&& def.states@[STATE_A as int].interrupt is None
    &&& def.states@[STATE_A as int].timers@ == Seq::<usize>::empty()
    &&& def.states@[STATE_A as int].entry@ == seq![
        ActionOp::IncContext { index: 0 },
        ActionOp::IncStateData { state: STATE_A, index: 0 },
    ]
    &&& def.states@[STATE_A as int].exit@ == seq![
        ActionOp::IncContext { index: 0 },
        ActionOp::IncStateData { state: STATE_A, index: 1 },
    ]
    &&& def.states@[STATE_B as int].region == 0
    &&& def.states@[STATE_B as int].data_len == 1
    &&& def.states@[STATE_B as int].kind == StateKind::Normal
    &&& def.states@[STATE_B as int].interrupt is None
    &&& def.states@[STATE_B as int].timers@ == Seq::<usize>::empty()
    &&& def.states@[STATE_B as int].entry@ == seq![
        ActionOp::IncStateData { state: STATE_B, index: 0 },
    ]
    &&& def.states@[STATE_B as int].exit@ == Seq::<ActionOp>::empty()
    &&& def.states@[STATE_C as int].region == 0
    &&& def.states@[STATE_C as int].data_len == 0
    &&& def.states@[STATE_C as int].kind == StateKind::Normal
    &&& def.states@[STATE_C as int].interrupt is None
    &&& def.states@[STATE_C as int].timers@ == Seq::<usize>::empty()
    &&& def.states@[STATE_C as int].entry@ == Seq::<ActionOp>::empty()
    &&& def.states@[STATE_C as int].exit@ == Seq::<ActionOp>::empty()
    &&& def.transitions@.len() == 2
    &&& def.transitions@[0].source == STATE_A
    &&& def.transitions@[0].trigger == EventKey::OnEvent(EVENT_CLICK)
    &&& def.transitions@[0].guard == GuardDef::PayloadAtLeast(101)
    &&& def.transitions@[0].action@ == seq![ActionOp::AddPayloadToContext { index: 1 }]
    &&& def.transitions@[0].target == STATE_B
    &&& def.transitions@[0].internal == false
    &&& def.transitions@[0].shallow_history == false
    &&& def.transitions@[1].source == STATE_B
    &&& def.transitions@[1].trigger == EventKey::OnEvent(EVENT_ENTER)
    &&& def.transitions@[1].guard == GuardDef::PayloadEquals(0)
    &&& def.transitions@[1].action@ == seq![
        ActionOp::IncStateData { state: STATE_B, index: 0 },
    ]
    &&& def.transitions@[1].target == STATE_B
    &&& def.transitions@[1].internal == true
    &&& def.transitions@[1].shallow_history == false
    &&& def.timers@.len() == 0
}

/// The definition: state A counts entries and exits, a click longer than
/// 100 moves to state B accumulating its time, and `Enter` without shift
/// bumps state B's counter without leaving the state.
pub fn build_fsm() -> (def: FsmDef)
    ensures
        embedded_def(def),
{
    let state_a = StateDef {
        region: 0,
        data_len: 2,
        entry: vec![
            ActionOp::IncContext { index: 0 },
            ActionOp::IncStateData { state: STATE_A, index: 0 },
        ],
        exit: vec![
            ActionOp::IncContext { index: 0 },
            ActionOp::IncStateData { state: STATE_A, index: 1 },
        ],
        kind: StateKind::Normal,
        interrupt: None,
        timers: Vec::new(),
    };
    let state_b = StateDef {
        region: 0,
        data_len: 1,
        entry: vec![ActionOp::IncStateData { state: STATE_B, index: 0 }],
        exit: Vec::new(),
        kind: StateKind::Normal,
        interrupt: None,
        timers: Vec::new(),
    };
    let state_c = StateDef {
        region: 0,
        data_len: 0,
        entry: Vec::new(),
        exit: Vec::new(),
        kind: StateKind::Normal,
        interrupt: None,
        timers: Vec::new(),
    };
    let click = TransitionDef {
        source: STATE_A,
        trigger: EventKey::OnEvent(EVENT_CLICK),
        guard: GuardDef::PayloadAtLeast(101),
        action: vec![ActionOp::AddPayloadToContext { index: 1 }],
        target: STATE_B,
        internal: false,
        shallow_history: false,
    };
    let enter = TransitionDef {
        source: STATE_B,
        trigger: EventKey::OnEvent(EVENT_ENTER),
        guard: GuardDef::PayloadEquals(0),
        action: vec![ActionOp::IncStateData { state: STATE_B, index: 0 }],
        target: STATE_B,
        internal: true,
        shallow_history: false,
    };
    let mut states: Vec<StateDef> = Vec::new();
    states.push(state_a);
    states.push(state_b);
    states.push(state_c);
    let mut transitions: Vec<TransitionDef> = Vec::new();
    transitions.push(click);
    transitions.push(enter);
    let mut regions: Vec<RegionDef> = Vec::new();
    regions.push(RegionDef { machine: 0, initial: STATE_A });
    let def = FsmDef {
        machine_count: 1,
        regions,
        states,
        transitions,
        timers: Vec::new(),
        context_len: 2,
    };
    proof {
        assert(def.states@[STATE_A as int].entry@ =~= seq![
            ActionOp::IncContext { index: 0 },
            ActionOp::IncStateData { state: STATE_A, index: 0 },
        ]);
        assert(def.states@[STATE_A as int].exit@ =~= seq![
            ActionOp::IncContext { index: 0 },
            ActionOp::IncStateData { state: STATE_A, index: 1 },
        ]);
        assert(def.states@[STATE_A as int].timers@ =~= Seq::<usize>::empty());
        assert(def.states@[STATE_B as int].entry@ =~= seq![
            ActionOp::IncStateData { state: STATE_B, index: 0 },
        ]);
        assert(def.states@[STATE_B as int].exit@ =~= Seq::<ActionOp>::empty());
        assert(def.states@[STATE_B as int].timers@ =~= Seq::<usize>::empty());
        assert(def.states@[STATE_C as int].entry@ =~= Seq::<ActionOp>::empty());
        assert(def.states@[STATE_C as int].exit@ =~= Seq::<ActionOp>::empty());
        assert(def.states@[STATE_C as int].timers@ =~= Seq::<usize>::empty());
        assert(def.transitions@[0].action@ =~= seq![ActionOp::AddPayloadToContext { index: 1 }]);
        assert(def.transitions@[1].action@ =~= seq![
            ActionOp::IncStateData { state: STATE_B, index: 0 },
        ]);
    }
    def
}

/// The embedded click machine, as a backend handed to the engine.
pub struct StateMachine {}

impl FsmBackend for StateMachine {
    fn build_def(&self) -> FsmDef {
        build_fsm()
    }
}

/// Reads state A's data out of a machine built over this definition.
pub fn state_a<Q: FsmEventQueue, I: Inspect>(m: &FsmMachine<Q, I>) -> (a: StateA)
    requires
        m.wf(),
        STATE_A < m.spec_def().states@.len(),
        m.spec_def().states@[STATE_A as int].data_len == 2,
    ensures
        a.enter == m.model().store[STATE_A as int][0],
        a.exit == m.model().store[STATE_A as int][1],
{
    StateA { enter: m.state_data(STATE_A, 0), exit: m.state_data(STATE_A, 1) }
}

/// Reads state B's data out of a machine built over this definition.
pub fn state_b<Q: FsmEventQueue, I: Inspect>(m: &FsmMachine<Q, I>) -> (b: StateB)
    requires
        m.wf(),
        STATE_B < m.spec_def().states@.len(),
        m.spec_def().states@[STATE_B as int].data_len == 1,
    ensures
        b.counter == m.model().store[STATE_B as int][0],
{
    StateB { counter: m.state_data(STATE_B, 0) }
}

/// Reads the shared context out of a machine built over this definition.
pub fn context<Q: FsmEventQueue, I: Inspect>(m: &FsmMachine<Q, I>) -> (c: StateMachineContext)
    requires
        m.wf(),
        m.spec_def().context_len == 2,
    ensures
        c.count == m.model().context[0],
        c.total_time == m.model().context[1],
{
    StateMachineContext { count: m.context_data(0), total_time: m.context_data(1) }
}

} // verus!
