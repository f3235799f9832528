//! A worked example with timers and an embedded sub-machine: the root
//! machine counts timer expirations in state A and moves on after enough of
//! them; an orthogonal region embeds a blinker machine whose renewing timer
//! toggles a light. The timer ids of both machines are flattened into one
//! ordered id space, enumerated by [`TimersMachineTimers`].

use vstd::prelude::*;

use crate::defs::ActionOp;
use crate::defs::FsmDef;
use crate::defs::GuardDef;
use crate::defs::RegionDef;
use crate::defs::StateDef;
use crate::defs::StateKind;
use crate::defs::TimerDef;
use crate::defs::TimerSettings;
use crate::defs::TransitionDef;
use crate::events::DomainEvent;
use crate::events::EventKey;
use crate::events::FsmEvent;
use crate::inspect::Inspect;
use crate::machine::FsmMachine;
use crate::queue::FsmEventQueue;
use crate::AllVariants;
use crate::FsmBackend;

verus! {

/// The id of state A of the root machine, its first region's initial state.
pub const STATE_A: usize = 0;

/// The id of state B of the root machine.
pub const STATE_B: usize = 1;

/// The id of the slot state embedding the blinker machine.
pub const BLINKER_SLOT: usize = 2;

/// The id of the blinker's light-off state.
pub const LIGHT_OFF: usize = 3;

/// The id of the blinker's light-on state.
pub const LIGHT_ON: usize = 4;

/// The id of the blinker's always-current blinking state, owner of the
/// blink timer.
pub const BLINKING_ON: usize = 5;

/// The discriminant of the click event.
pub const EVENT_CLICK: usize = 0;

/// The renewing 100 ms timer of state A.
pub const TIMER_1: usize = 0;

/// The one-shot 200 ms timer of state A.
pub const TIMER_2: usize = 1;

/// The blinker's renewing 100 ms timer.
pub const BLINKING_TIMER: usize = 2;

/// The flattened, ordered set of the machine's timer identifiers,
/// including the nested blinker machine's.
#[derive(Clone, Copy, Debug, PartialEq, Eq, Structural)]
pub enum TimersMachineTimers {
    Timer1,
    Timer2,
    BlinkingTimer,
}

impl TimersMachineTimers {
    /// The variant's flattened timer id.
    pub fn timer_id(&self) -> (id: usize)
        ensures
            id < 3,
    {
        match self {
            TimersMachineTimers::Timer1 => TIMER_1,
            TimersMachineTimers::Timer2 => TIMER_2,
            TimersMachineTimers::BlinkingTimer => BLINKING_TIMER,
        }
    }
}

impl AllVariants for TimersMachineTimers {
    fn all_variants() -> Vec<TimersMachineTimers> {
        vec![
            TimersMachineTimers::Timer1,
            TimersMachineTimers::Timer2,
            TimersMachineTimers::BlinkingTimer,
        ]
    }
}

/// The click event as the dispatch engine consumes it.
pub fn click_event() -> (ev: FsmEvent)
    ensures
        ev == FsmEvent::Event(DomainEvent { discriminant: EVENT_CLICK as usize, payload: 0 }),
{
    FsmEvent::Event(DomainEvent { discriminant: EVENT_CLICK, payload: 0 })
}

/// Exactly the tables this builder declares, field by field. Machine 0 is
/// the root: region 0 starts at state A (which owns the renewing 100 ms
/// timer and the one-shot 200 ms timer, both cancelled when A is left) and
/// region 1 starts at the slot embedding the blinker (machine 1). The
/// blinker's region 2 toggles between light-off and light-on on the
/// renewing 100 ms blink timer owned by region 3's always-current blinking
/// state. Each expiry of A's timers bumps A's counter; a click moves A to B
/// once the counter reaches 5; each blink toggle is counted in the context.
pub open spec fn timers_def(def: FsmDef) -> bool {
    &&& def.machine_count == 2
    &&& def.context_len == 2
    &&& def.regions@.len() == 4
    &&& def.regions@[0].machine == 0
    &&& def.regions@[0].initial == STATE_A
    &&& def.regions@[1].machine == 0
    &&& def.regions@[1].initial == BLINKER_SLOT
    &&& def.regions@[2].machine == 1
    &&& def.regions@[2].initial == LIGHT_OFF
    &&& def.regions@[3].machine == 1
    &&& def.regions@[3].initial == BLINKING_ON
    &&& def.states@.len() == 6
    &&& def.states@[STATE_A as int].region == 0
    &&& def.states@[STATE_A as int].data_len == 1
    &&& def.states@[STATE_A as int].kind == StateKind::Normal
    &&& def.states@[STATE_A as int].interrupt is None
    &&& def.states@[STATE_A as int].entry@ == Seq::<ActionOp>::empty()
    &&& def.states@[STATE_A as int].exit@ == seq![ActionOp::SetContext { index: 0, value: 1 }]
    &&& def.states@[STATE_A as int].timers@ == seq![TIMER_1, TIMER_2]
    &&& def.states@[STATE_B as int].region == 0
    &&& def.states@[STATE_B as int].data_len == 0
    &&& def.states@[STATE_B as int].kind == StateKind::Normal
    &&& def.states@[STATE_B as int].interrupt is None
    &&& def.states@[STATE_B as int].entry@ == Seq::<ActionOp>::empty()
    &&& def.states@[STATE_B as int].exit@ == Seq::<ActionOp>::empty()
    &&& def.states@[STATE_B as int].timers@ == Seq::<usize>::empty()
    &&& def.states@[BLINKER_SLOT as int].region == 1
    &&& def.states@[BLINKER_SLOT as int].data_len == 0
    &&& def.states@[BLINKER_SLOT as int].kind == StateKind::SubMachine(1)
    &&& def.states@[BLINKER_SLOT as int].interrupt is None
    &&& def.states@[BLINKER_SLOT as int].entry@ == Seq::<ActionOp>::empty()
    &&& def.states@[BLINKER_SLOT as int].exit@ == Seq::<ActionOp>::empty()
    &&& def.states@[BLINKER_SLOT as int].timers@ == Seq::<usize>::empty()
    &&& def.states@[LIGHT_OFF as int].region == 2
    &&& def.states@[LIGHT_OFF as int].data_len == 0
    &&& def.states@[LIGHT_OFF as int].kind == StateKind::Normal
    &&& def.states@[LIGHT_OFF as int].interrupt is None
    &&& def.states@[LIGHT_OFF as int].entry@ == Seq::<ActionOp>::empty()
    &&& def.states@[LIGHT_OFF as int].exit@ == Seq::<ActionOp>::empty()
    &&& def.states@[LIGHT_OFF as int].timers@ == Seq::<usize>::empty()
    &&& def.states@[LIGHT_ON as int].region == 2
    &&& def.states@[LIGHT_ON as int].data_len == 0
    &&& def.states@[LIGHT_ON as int].kind == StateKind::Normal
    &&& def.states@[LIGHT_ON as int].interrupt is None
    &&& def.states@[LIGHT_ON as int].entry@ == Seq::<ActionOp>::empty()
    &&& def.states@[LIGHT_ON as int].exit@ == Seq::<ActionOp>::empty()
    &&& def.states@[LIGHT_ON as int].timers@ == Seq::<usize>::empty()
    &&& def.states@[BLINKING_ON as int].region == 3
    &&& def.states@[BLINKING_ON as int].data_len == 0
    &&& def.states@[BLINKING_ON as int].kind == StateKind::Normal
    &&& def.states@[BLINKING_ON as int].interrupt is None
    &&& def.states@[BLINKING_ON as int].entry@ == Seq::<ActionOp>::empty()
    &&& def.states@[BLINKING_ON as int].exit@ == Seq::<ActionOp>::empty()
    &&& def.states@[BLINKING_ON as int].timers@ == seq![BLINKING_TIMER]
    &&& def.transitions@.len() == 5
    &&& def.transitions@[0].source == STATE_A
    &&& def.transitions@[0].trigger == EventKey::OnTimer(TIMER_1)
    &&& def.transitions@[0].guard == GuardDef::Always
    &&& def.transitions@[0].action@ == seq![
        ActionOp::IncStateData { state: STATE_A, index: 0 },
    ]
    &&& def.transitions@[0].target == STATE_A
    &&& def.transitions@[0].internal == true
    &&& def.transitions@[1].source == STATE_A
    &&& def.transitions@[1].trigger == EventKey::OnTimer(TIMER_2)
    &&& def.transitions@[1].guard == GuardDef::Always
    &&& def.transitions@[1].action@ == seq![
        ActionOp::IncStateData { state: STATE_A, index: 0 },
    ]
    &&& def.transitions@[1].target == STATE_A
    &&& def.transitions@[1].internal == true
    &&& def.transitions@[2].source == STATE_A
    &&& def.transitions@[2].trigger == EventKey::OnEvent(EVENT_CLICK)
    &&& def.transitions@[2].guard == (GuardDef::StateDataAtLeast {
        state: STATE_A,
        index: 0,
        min: 5,
    })
    &&& def.transitions@[2].action@ == Seq::<ActionOp>::empty()
    &&& def.transitions@[2].target == STATE_B
    &&& def.transitions@[2].internal == false
    &&& def.transitions@[2].shallow_history == false
    &&& def.transitions@[3].source == LIGHT_OFF
    &&& def.transitions@[3].trigger == EventKey::OnTimer(BLINKING_TIMER)
    &&& def.transitions@[3].guard == GuardDef::Always
    &&& def.transitions@[3].action@ == seq![ActionOp::IncContext { index: 1 }]
    &&& def.transitions@[3].target == LIGHT_ON
    &&& def.transitions@[3].internal == false
    &&& def.transitions@[3].shallow_history == false
    &&& def.transitions@[4].source == LIGHT_ON
    &&& def.transitions@[4].trigger == EventKey::OnTimer(BLINKING_TIMER)
    &&& def.transitions@[4].guard == GuardDef::Always
    &&& def.transitions@[4].action@ == seq![ActionOp::IncContext { index: 1 }]
    &&& def.transitions@[4].target == LIGHT_OFF
    &&& def.transitions@[4].internal == false
    &&& def.transitions@[4].shallow_history == false
    &&& def.timers@.len() == 3
    &&& def.timers@[TIMER_1 as int].machine == 0
    &&& def.timers@[TIMER_1 as int].settings == (TimerSettings {
        timeout: 100,
        renew: true,
        cancel_on_state_exit: true,
        enabled: true,
    })
    &&& def.timers@[TIMER_2 as int].machine == 0
    &&& def.timers@[TIMER_2 as int].settings == (TimerSettings {
        timeout: 200,
        renew: false,
        cancel_on_state_exit: true,
        enabled: true,
    })
    &&& def.timers@[BLINKING_TIMER as int].machine == 1
    &&& def.timers@[BLINKING_TIMER as int].settings == (TimerSettings {
        timeout: 100,
        renew: true,
        cancel_on_state_exit: false,
        enabled: true,
    })
}

/// The definition. Machine 0 is the root: its first region holds states A
/// and B, its second region embeds the blinker (machine 1). State A arms a
/// renewing 100 ms timer and a one-shot 200 ms timer, both cancelled when A
/// is left; each expiry bumps A's counter, and a click moves to B once the
/// counter reaches 5, flagging the exit in the context. The blinker toggles
/// between light-off and light-on on its own renewing 100 ms timer,
/// counting the toggles in the context.
pub fn build_fsm() -> (def: FsmDef)
    ensures
        timers_def(def),
{
    let state_a = StateDef {
        region: 0,
        data_len: 1,
        entry: Vec::new(),
        exit: vec![ActionOp::SetContext { index: 0, value: 1 }],
        kind: StateKind::Normal,
        interrupt: None,
        timers: vec![TIMER_1, TIMER_2],
    };
    let state_b = StateDef {
        region: 0,
        data_len: 0,
        entry: Vec::new(),
        exit: Vec::new(),
        kind: StateKind::Normal,
        interrupt: None,
        timers: Vec::new(),
    };
    let blinker_slot = StateDef {
        region: 1,
        data_len: 0,
        entry: Vec::new(),
        exit: Vec::new(),
        kind: StateKind::SubMachine(1),
        interrupt: None,
        timers: Vec::new(),
    };
    let light_off = StateDef {
        region: 2,
        data_len: 0,
        entry: Vec::new(),
        exit: Vec::new(),
        kind: StateKind::Normal,
        interrupt: None,
        timers: Vec::new(),
    };
    let light_on = StateDef {
        region: 2,
        data_len: 0,
        entry: Vec::new(),
        exit: Vec::new(),
        kind: StateKind::Normal,
        interrupt: None,
        timers: Vec::new(),
    };
    let blinking_on = StateDef {
        region: 3,
        data_len: 0,
        entry: Vec::new(),
        exit: Vec::new(),
        kind: StateKind::Normal,
        interrupt: None,
        timers: vec![BLINKING_TIMER],
    };
    let mut states: Vec<StateDef> = Vec::new();
    states.push(state_a);
    states.push(state_b);
    states.push(blinker_slot);
    states.push(light_off);
    states.push(light_on);
    states.push(blinking_on);
    let t1_expired = TransitionDef {
        source: STATE_A,
        trigger: EventKey::OnTimer(TIMER_1),
        guard: GuardDef::Always,
        action: vec![ActionOp::IncStateData { state: STATE_A, index: 0 }],
        target: STATE_A,
        internal: true,
        shallow_history: false,
    };
    let t2_expired = TransitionDef {
        source: STATE_A,
        trigger: EventKey::OnTimer(TIMER_2),
        guard: GuardDef::Always,
        action: vec![ActionOp::IncStateData { state: STATE_A, index: 0 }],
        target: STATE_A,
        internal: true,
        shallow_history: false,
    };
    let click = TransitionDef {
        source: STATE_A,
        trigger: EventKey::OnEvent(EVENT_CLICK),
        guard: GuardDef::StateDataAtLeast { state: STATE_A, index: 0, min: 5 },
        action: Vec::new(),
        target: STATE_B,
        internal: false,
        shallow_history: false,
    };
    let toggle_on = TransitionDef {
        source: LIGHT_OFF,
        trigger: EventKey::OnTimer(BLINKING_TIMER),
        guard: GuardDef::Always,
        action: vec![ActionOp::IncContext { index: 1 }],
        target: LIGHT_ON,
        internal: false,
        shallow_history: false,
    };
    let toggle_off = TransitionDef {
        source: LIGHT_ON,
        trigger: EventKey::OnTimer(BLINKING_TIMER),
        guard: GuardDef::Always,
        action: vec![ActionOp::IncContext { index: 1 }],
        target: LIGHT_OFF,
        internal: false,
        shallow_history: false,
    };
    let mut transitions: Vec<TransitionDef> = Vec::new();
    transitions.push(t1_expired);
    transitions.push(t2_expired);
    transitions.push(click);
    transitions.push(toggle_on);
    transitions.push(toggle_off);
    let mut regions: Vec<RegionDef> = Vec::new();
    regions.push(RegionDef { machine: 0, initial: STATE_A });
    regions.push(RegionDef { machine: 0, initial: BLINKER_SLOT });
    regions.push(RegionDef { machine: 1, initial: LIGHT_OFF });
    regions.push(RegionDef { machine: 1, initial: BLINKING_ON });
    let mut timers: Vec<TimerDef> = Vec::new();
    timers.push(
        TimerDef {
            machine: 0,
            settings: TimerSettings {
                timeout: 100,
                renew: true,
                cancel_on_state_exit: true,
                enabled: true,
            },
        },
    );
    timers.push(
        TimerDef {
            machine: 0,
            settings: TimerSettings {
                timeout: 200,
                renew: false,
                cancel_on_state_exit: true,
                enabled: true,
            },
        },
    );
    timers.push(
        TimerDef {
            machine: 1,
            settings: TimerSettings {
                timeout: 100,
                renew: true,
                cancel_on_state_exit: false,
                enabled: true,
            },
        },
    );
    let def = FsmDef { machine_count: 2, regions, states, transitions, timers, context_len: 2 };
    proof {
        assert(def.states@[STATE_A as int].entry@ =~= Seq::<ActionOp>::empty());
        assert(def.states@[STATE_A as int].exit@ =~= seq![
            ActionOp::SetContext { index: 0, value: 1 },
        ]);
        assert(def.states@[STATE_A as int].timers@ =~= seq![TIMER_1, TIMER_2]);
        assert(def.states@[STATE_B as int].entry@ =~= Seq::<ActionOp>::empty());
        assert(def.states@[STATE_B as int].exit@ =~= Seq::<ActionOp>::empty());
        assert(def.states@[STATE_B as int].timers@ =~= Seq::<usize>::empty());
        assert(def.states@[BLINKER_SLOT as int].entry@ =~= Seq::<ActionOp>::empty());
        assert(def.states@[BLINKER_SLOT as int].exit@ =~= Seq::<ActionOp>::empty());
        assert(def.states@[BLINKER_SLOT as int].timers@ =~= Seq::<usize>::empty());
        assert(def.states@[LIGHT_OFF as int].entry@ =~= Seq::<ActionOp>::empty());
        assert(def.states@[LIGHT_OFF as int].exit@ =~= Seq::<ActionOp>::empty());
        assert(def.states@[LIGHT_OFF as int].timers@ =~= Seq::<usize>::empty());
        assert(def.states@[LIGHT_ON as int].entry@ =~= Seq::<ActionOp>::empty());
        assert(def.states@[LIGHT_ON as int].exit@ =~= Seq::<ActionOp>::empty());
        assert(def.states@[LIGHT_ON as int].timers@ =~= Seq::<usize>::empty());
        assert(def.states@[BLINKING_ON as int].entry@ =~= Seq::<ActionOp>::empty());
        assert(def.states@[BLINKING_ON as int].exit@ =~= Seq::<ActionOp>::empty());
        assert(def.states@[BLINKING_ON as int].timers@ =~= seq![BLINKING_TIMER]);
        assert(def.transitions@[0].action@ =~= seq![
            ActionOp::IncStateData { state: STATE_A, index: 0 },
        ]);
        assert(def.transitions@[1].action@ =~= seq![
            ActionOp::IncStateData { state: STATE_A, index: 0 },
        ]);
        assert(def.transitions@[2].action@ =~= Seq::<ActionOp>::empty());
        assert(def.transitions@[3].action@ =~= seq![ActionOp::IncContext { index: 1 }]);
        assert(def.transitions@[4].action@ =~= seq![ActionOp::IncContext { index: 1 }]);
    }
    def
}

/// The timers machine, as a backend handed to the engine.
pub struct TimersMachine {}

impl FsmBackend for TimersMachine {
    fn build_def(&self) -> FsmDef {
        build_fsm()
    }
}

/// How many timer expirations state A has counted.
pub fn timer_count<Q: FsmEventQueue, I: Inspect>(m: &FsmMachine<Q, I>) -> (n: u64)
    requires
        m.wf(),
        STATE_A < m.spec_def().states@.len(),
        m.spec_def().states@[STATE_A as int].data_len == 1,
    ensures
        n == m.model().store[STATE_A as int][0],
{
    m.state_data(STATE_A, 0)
}

/// Whether state A has been exited.
pub fn exited_a<Q: FsmEventQueue, I: Inspect>(m: &FsmMachine<Q, I>) -> (b: bool)
    requires
        m.wf(),
        m.spec_def().context_len == 2,
    ensures
        b == (m.model().context[0] != 0),
{
    m.context_data(0) != 0
}

/// How often the blinker has toggled its light.
pub fn toggle_count<Q: FsmEventQueue, I: Inspect>(m: &FsmMachine<Q, I>) -> (n: u64)
    requires
        m.wf(),
        m.spec_def().context_len == 2,
    ensures
        n == m.model().context[1],
{
    m.context_data(1)
}

} // verus!
