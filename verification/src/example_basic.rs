//! A worked example: a two-state click machine declared against the
//! definition tables. State data and context are laid out as data words;
//! the typed structs below give them their domain names back.

use vstd::prelude::*;

use crate::defs::ActionOp;
use crate::defs::FsmDef;
use crate::defs::GuardDef;
use crate::defs::RegionDef;
use crate::defs::StateDef;
use crate::defs::StateKind;
use crate::defs::TransitionDef;
use crate::events::DomainEvent;
use crate::events::EventKey;
use crate::events::FsmEvent;
use crate::inspect::Inspect;
use crate::machine::FsmMachine;
use crate::queue::FsmEventQueue;
use crate::FsmBackend;

verus! {

/// The id of state A, the initial state.
pub const STATE_A: usize = 0;

/// The id of state B.
pub const STATE_B: usize = 1;

/// The discriminant of the click event.
pub const EVENT_CLICK: usize = 0;

/// The discriminant of the enter event.
pub const EVENT_ENTER: usize = 1;

/// The machine's shared context: how often a state was entered or exited,
/// and the accumulated click time.
#[derive(Clone, Copy, Debug, PartialEq, Eq, Structural)]
pub struct StateMachineContext {
    pub count: u64,
    pub total_time: u64,
}

/// State A's persistent data: how often it was entered and exited.
#[derive(Clone, Copy, Debug, PartialEq, Eq, Structural)]
pub struct StateA {
    pub enter: u64,
    pub exit: u64,
}

/// State B's persistent data: how often it was entered.
#[derive(Clone, Copy, Debug, PartialEq, Eq, Structural)]
pub struct StateB {
    pub counter: u64,
}

/// A click carrying the time it took.
#[derive(Clone, Copy, Debug, PartialEq, Eq, Structural)]
pub struct EventClick {
    pub time: u64,
}

/// The enter key.
#[derive(Clone, Copy, Debug, PartialEq, Eq, Structural)]
pub struct EventEnter {}

impl EventClick {
    /// The event as the dispatch engine consumes it.
    pub fn to_event(&self) -> (ev: FsmEvent)
        ensures
            ev == FsmEvent::Event(
                DomainEvent { discriminant: EVENT_CLICK as usize, payload: self.time },
            ),
    {
        FsmEvent::Event(DomainEvent { discriminant: EVENT_CLICK, payload: self.time })
    }
}

impl EventEnter {
    /// The event as the dispatch engine consumes it.
    pub fn to_event(&self) -> (ev: FsmEvent)
        ensures
            ev == FsmEvent::Event(DomainEvent { discriminant: EVENT_ENTER as usize, payload: 0 }),
    {
        FsmEvent::Event(DomainEvent { discriminant: EVENT_ENTER, payload: 0 })
    }
}

/// Exactly the tables this builder declares, field by field: one region
/// starting at state A; state A counts entries and exits into its data
/// words (bumping the shared count on each), state B counts its entries;
/// one external transition from A to B on a click whose payload is at
/// least 101, accumulating the payload into the context; no timers.
pub open spec fn click_def(def: FsmDef) -> bool {
    &&& def.machine_count == 1
    &&& def.context_len == 2
    &&& def.regions@.len() == 1
    &&& def.regions@[0].machine == 0
    &&& def.regions@[0].initial == STATE_A
    &&& def.states@.len() == 2
    &&& def.states@[STATE_A as int].region == 0
    &&& def.states@[STATE_A as int].data_len == 2
    &&& def.states@[STATE_A as int].kind == StateKind::Normal
    &&& def.states@[STATE_A as int].interrupt is None
    &&& def.states@[STATE_A as int].timers@ == Seq::<usize>::empty()
    &&& def.states@[STATE_A as int].entry@ == seq![
        ActionOp::IncContext { index: 0 },
        ActionOp::IncStateData { state: STATE_A, index: 0 },
    ]
    &&& def.states@[STATE_A as int].exit@ == seq![
        ActionOp::IncContext { index: 0 },
        ActionOp::IncStateData { state: STATE_A, index: 1 },
    ]
    &&& def.states@[STATE_B as int].region == 0
    &&& def.states@[STATE_B as int].data_len == 1
    &&& def.states@[STATE_B as int].kind == StateKind::Normal
    &&& def.states@[STATE_B as int].interrupt is None
    &&& def.states@[STATE_B as int].timers@ == Seq::<usize>::empty()
    &&& def.states@[STATE_B as int].entry@ == seq![
        ActionOp::IncStateData { state: STATE_B, index: 0 },
    ]
    &&& def.states@[STATE_B as int].exit@ == Seq::<ActionOp>::empty()
    &&& def.transitions@.len() == 1
    &&& def.transitions@[0].source == STATE_A
    &&& def.transitions@[0].trigger == EventKey::OnEvent(EVENT_CLICK)
    &&& def.transitions@[0].guard == GuardDef::PayloadAtLeast(101)
    &&& def.transitions@[0].action@ == seq![ActionOp::AddPayloadToContext { index: 1 }]
    &&& def.transitions@[0].target == STATE_B
    &&& def.transitions@[0].internal == false
    &&& def.transitions@[0].shallow_history == false
    &&& def.timers@.len() == 0
}

/// The click machine's definition: one region; state A counts entries and
/// exits (and bumps the shared count on each), a click longer than 100
/// moves to state B accumulating its time, and state B counts its entries.
pub fn build_fsm() -> (def: FsmDef)
    ensures
        click_def(def),
{
    let state_a = StateDef {
        region: 0,
        data_len: 2,
        entry: vec![
            ActionOp::IncContext { index: 0 },
            ActionOp::IncStateData { state: STATE_A, index: 0 },
        ],
        exit: vec![
            ActionOp::IncContext { index: 0 },
            ActionOp::IncStateData { state: STATE_A, index: 1 },
        ],
        kind: StateKind::Normal,
        interrupt: None,
        timers: Vec::new(),
    };
    let state_b = StateDef {
        region: 0,
        data_len: 1,
        entry: vec![ActionOp::IncStateData { state: STATE_B, index: 0 }],
        exit: Vec::new(),
        kind: StateKind::Normal,
        interrupt: None,
        timers: Vec::new(),
    };
    let click = TransitionDef {
        source: STATE_A,
        trigger: EventKey::OnEvent(EVENT_CLICK),
        guard: GuardDef::PayloadAtLeast(101),
        action: vec![ActionOp::AddPayloadToContext { index: 1 }],
        target: STATE_B,
        internal: false,
        shallow_history: false,
    };
    let mut states: Vec<StateDef> = Vec::new();
    states.push(state_a);
    states.push(state_b);
    let mut transitions: Vec<TransitionDef> = Vec::new();
    transitions.push(click);
    let mut regions: Vec<RegionDef> = Vec::new();
    regions.push(RegionDef { machine: 0, initial: STATE_A });
    let def = FsmDef {
        machine_count: 1,
        regions,
        states,
        transitions,
        timers: Vec::new(),
        context_len: 2,
    };
    proof {
        assert(def.states@[STATE_A as int].entry@ =~= seq![
            ActionOp::IncContext { index: 0 },
            ActionOp::IncStateData { state: STATE_A, index: 0 },
        ]);
        assert(def.states@[STATE_A as int].exit@ =~= seq![
            ActionOp::IncContext { index: 0 },
            ActionOp::IncStateData { state: STATE_A, index: 1 },
        ]);
        assert(def.states@[STATE_A as int].timers@ =~= Seq::<usize>::empty());
        assert(def.states@[STATE_B as int].entry@ =~= seq![
            ActionOp::IncStateData { state: STATE_B, index: 0 },
        ]);
        assert(def.states@[STATE_B as int].exit@ =~= Seq::<ActionOp>::empty());
        assert(def.states@[STATE_B as int].timers@ =~= Seq::<usize>::empty());
        assert(def.transitions@[0].action@ =~= seq![ActionOp::AddPayloadToContext { index: 1 }]);
    }
    def
}

/// The click machine, as a backend handed to the engine.
pub struct StateMachine {}

impl FsmBackend for StateMachine {
    fn build_def(&self) -> FsmDef {
        build_fsm()
    }
}

/// Reads state A's data out of a machine built over this definition.
pub fn state_a<Q: FsmEventQueue, I: Inspect>(m: &FsmMachine<Q, I>) -> (a: StateA)
    requires
        m.wf(),
        STATE_A < m.spec_def().states@.len(),
        m.spec_def().states@[STATE_A as int].data_len == 2,
    ensures
        a.enter == m.model().store[STATE_A as int][0],
        a.exit == m.model().store[STATE_A as int][1],
{
    StateA { enter: m.state_data(STATE_A, 0), exit: m.state_data(STATE_A, 1) }
}

/// Reads state B's data out of a machine built over this definition.
pub fn state_b<Q: FsmEventQueue, I: Inspect>(m: &FsmMachine<Q, I>) -> (b: StateB)
    requires
        m.wf(),
        STATE_B < m.spec_def().states@.len(),
        m.spec_def().states@[STATE_B as int].data_len == 1,
    ensures
        b.counter == m.model().store[STATE_B as int][0],
{
    StateB { counter: m.state_data(STATE_B, 0) }
}

/// Reads the shared context out of a machine built over this definition.
pub fn context<Q: FsmEventQueue, I: Inspect>(m: &FsmMachine<Q, I>) -> (c: StateMachineContext)
    requires
        m.wf(),
        m.spec_def().context_len == 2,
    ensures
        c.count == m.model().context[0],
        c.total_time == m.model().context[1],
{
    StateMachineContext { count: m.context_data(0), total_time: m.context_data(1) }
}

} // verus!
