//! A machine with an eventless initial transition, a self-loop, internal
//! transitions, event queueing and a guarded transition.

use finny::defs::ActionOp;
use finny::defs::FsmDef;
use finny::defs::GuardDef;
use finny::defs::RegionDef;
use finny::defs::StateDef;
use finny::defs::StateKind;
use finny::defs::TransitionDef;
use finny::events::DomainEvent;
use finny::events::EventKey;
use finny::events::FsmEvent;
use finny::inspect::InspectNull;
use finny::machine::FsmMachine;
use finny::queue::FsmEventQueueVec;
use finny::sem::FsmCurrentState;
use finny::FsmError;

const INITIAL: usize = 0;
const STATE1: usize = 1;
const STATE2: usize = 2;

const EVENT1: usize = 0;
const EVENT2: usize = 1;
const EVENT3: usize = 2;
const MAGIC_EVENT: usize = 3;

fn plain_state(region: usize, data_len: usize, entry: Vec<ActionOp>, exit: Vec<ActionOp>) -> StateDef {
    StateDef {
        region,
        data_len,
        entry,
        exit,
        kind: StateKind::Normal,
        interrupt: None,
        timers: Vec::new(),
    }
}

fn event(discriminant: usize, payload: u64) -> FsmEvent {
    FsmEvent::Event(DomainEvent { discriminant, payload })
}

/// `Initial -NoEvent/InitAction-> State1`, `State1 -Event1-> State1`,
/// `State1 -Event2(internal)-> State1` counting, `State1 -Event3(internal)`
/// enqueueing `Event2`, `State1 -MagicEvent(42)-guard-> State2`.
fn build_fsm_one() -> FsmDef {
    let states = vec![
        plain_state(
            0,
            2,
            vec![ActionOp::IncStateData { state: INITIAL, index: 0 }],
            vec![ActionOp::IncStateData { state: INITIAL, index: 1 }],
        ),
        plain_state(
            0,
            3,
            vec![ActionOp::IncStateData { state: STATE1, index: 0 }],
            vec![ActionOp::IncStateData { state: STATE1, index: 1 }],
        ),
        plain_state(0, 0, Vec::new(), Vec::new()),
    ];
    let transitions = vec![
        TransitionDef {
            source: INITIAL,
            trigger: EventKey::OnNoEvent,
            guard: GuardDef::Always,
            action: Vec::new(),
            target: STATE1,
            internal: false,
            shallow_history: false,
        },
        TransitionDef {
            source: STATE1,
            trigger: EventKey::OnEvent(EVENT1),
            guard: GuardDef::Always,
            action: Vec::new(),
            target: STATE1,
            internal: false,
            shallow_history: false,
        },
        TransitionDef {
            source: STATE1,
            trigger: EventKey::OnEvent(EVENT2),
            guard: GuardDef::Always,
            action: vec![ActionOp::IncStateData { state: STATE1, index: 2 }],
            target: STATE1,
            internal: true,
            shallow_history: false,
        },
        TransitionDef {
            source: STATE1,
            trigger: EventKey::OnEvent(EVENT3),
            guard: GuardDef::Always,
            action: vec![ActionOp::EnqueueEvent(event(EVENT2, 0))],
            target: STATE1,
            internal: true,
            shallow_history: false,
        },
        TransitionDef {
            source: STATE1,
            trigger: EventKey::OnEvent(MAGIC_EVENT),
            guard: GuardDef::PayloadEquals(42),
            action: Vec::new(),
            target: STATE2,
            internal: false,
            shallow_history: false,
        },
    ];
    FsmDef {
        machine_count: 1,
        regions: vec![RegionDef { machine: 0, initial: INITIAL }],
        states,
        transitions,
        timers: Vec::new(),
        context_len: 1,
    }
}

#[test]
fn test_machine1() {
    let mut fsm1 =
        FsmMachine::new_with(build_fsm_one(), FsmEventQueueVec::new(), InspectNull::new()).unwrap();

    fsm1.start().unwrap();

    {
        assert_eq!(fsm1.state_data(INITIAL, 0), 1); // entry
        assert_eq!(fsm1.state_data(INITIAL, 1), 1); // exit
        assert_eq!(fsm1.state_data(STATE1, 0), 1); // entry
    }

    fsm1.dispatch(event(EVENT1, 0)).unwrap();

    {
        assert_eq!(fsm1.state_data(STATE1, 1), 1); // exit
        assert_eq!(fsm1.state_data(STATE1, 0), 2); // entry
    }

    fsm1.dispatch(event(EVENT2, 0)).unwrap();

    {
        assert_eq!(fsm1.state_data(STATE1, 1), 1);
        assert_eq!(fsm1.state_data(STATE1, 0), 2);
        assert_eq!(fsm1.state_data(STATE1, 2), 1); // internal action
    }

    // Event queueing, implicit and explicit execution.
    fsm1.dispatch(event(EVENT3, 0)).unwrap();

    {
        assert_eq!(fsm1.state_data(STATE1, 2), 1);
    }

    fsm1.dispatch(event(EVENT3, 0)).unwrap();

    {
        assert_eq!(fsm1.state_data(STATE1, 2), 2);
    }

    fsm1.execute_queued_events();

    {
        assert_eq!(fsm1.state_data(STATE1, 2), 3);
    }

    // Event guards.
    assert_eq!(Err(FsmError::NoTransition), fsm1.dispatch(event(MAGIC_EVENT, 1)));
    assert_eq!(FsmCurrentState::State(STATE1), fsm1.get_current_states()[0]);

    fsm1.dispatch(event(MAGIC_EVENT, 42)).unwrap();
    assert_eq!(FsmCurrentState::State(STATE2), fsm1.get_current_states()[0]);
}

#[test]
fn test_fsm_min1() {
    let def = FsmDef {
        machine_count: 1,
        regions: vec![RegionDef { machine: 0, initial: 0 }],
        states: vec![StateDef {
            region: 0,
            data_len: 0,
            entry: Vec::new(),
            exit: Vec::new(),
            kind: StateKind::Normal,
            interrupt: None,
            timers: Vec::new(),
        }],
        transitions: Vec::new(),
        timers: Vec::new(),
        context_len: 0,
    };
    let mut fsm = FsmMachine::new_with(def, FsmEventQueueVec::new(), InspectNull::new()).unwrap();
    fsm.start().unwrap();
    assert_eq!(FsmCurrentState::State(0), fsm.get_current_states()[0]);
}
