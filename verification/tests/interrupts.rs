//! Interrupt semantics: while the current state is an interrupt state,
//! only whitelisted resume events get through; everything else is blocked
//! without any mutation.

use finny::defs::FsmDef;
use finny::defs::GuardDef;
use finny::defs::RegionDef;
use finny::defs::StateDef;
use finny::defs::StateKind;
use finny::defs::TransitionDef;
use finny::events::DomainEvent;
use finny::events::EventKey;
use finny::events::FsmEvent;
use finny::inspect::InspectNull;
use finny::machine::FsmMachine;
use finny::queue::FsmEventQueueVec;
use finny::sem::FsmCurrentState;
use finny::FsmError;

const HALTED: usize = 0;
const RUNNING: usize = 1;

const EV_RESUME: usize = 0;
const EV_OTHER: usize = 1;

fn event(discriminant: usize) -> FsmEvent {
    FsmEvent::Event(DomainEvent { discriminant, payload: 0 })
}

fn build_def() -> FsmDef {
    let states = vec![
        StateDef {
            region: 0,
            data_len: 0,
            entry: Vec::new(),
            exit: Vec::new(),
            kind: StateKind::Normal,
            interrupt: Some(vec![EventKey::OnEvent(EV_RESUME)]),
            timers: Vec::new(),
        },
        StateDef {
            region: 0,
            data_len: 0,
            entry: Vec::new(),
            exit: Vec::new(),
            kind: StateKind::Normal,
            interrupt: None,
            timers: Vec::new(),
        },
    ];
    let transitions = vec![
        TransitionDef {
            source: HALTED,
            trigger: EventKey::OnEvent(EV_RESUME),
            guard: GuardDef::Always,
            action: Vec::new(),
            target: RUNNING,
            internal: false,
            shallow_history: false,
        },
        TransitionDef {
            source: HALTED,
            trigger: EventKey::OnEvent(EV_OTHER),
            guard: GuardDef::Always,
            action: Vec::new(),
            target: RUNNING,
            internal: false,
            shallow_history: false,
        },
    ];
    FsmDef {
        machine_count: 1,
        regions: vec![RegionDef { machine: 0, initial: HALTED }],
        states,
        transitions,
        timers: Vec::new(),
        context_len: 0,
    }
}

#[test]
fn test_interrupt_blocks_unlisted_event() {
    let mut fsm =
        FsmMachine::new_with(build_def(), FsmEventQueueVec::new(), InspectNull::new()).unwrap();
    fsm.start().unwrap();
    assert_eq!(FsmCurrentState::State(HALTED), fsm.get_current_states()[0]);

    // A declared transition exists for this event, but the interrupt state
    // suppresses it.
    assert_eq!(Err(FsmError::Interrupted), fsm.dispatch(event(EV_OTHER)));
    assert_eq!(FsmCurrentState::State(HALTED), fsm.get_current_states()[0]);
}

#[test]
fn test_whitelisted_event_resumes() {
    let mut fsm =
        FsmMachine::new_with(build_def(), FsmEventQueueVec::new(), InspectNull::new()).unwrap();
    fsm.start().unwrap();

    fsm.dispatch(event(EV_RESUME)).unwrap();
    assert_eq!(FsmCurrentState::State(RUNNING), fsm.get_current_states()[0]);

    // Out of the interrupt state, the machine dispatches normally again:
    // nothing matches from RUNNING.
    assert_eq!(Err(FsmError::NoTransition), fsm.dispatch(event(EV_OTHER)));
}
