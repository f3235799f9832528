//! Sub-machine composition: starting a fresh slot, routing events into a
//! started sub-machine, shallow-history resume, and restart on a
//! non-history transition.

use finny::defs::FsmDef;
use finny::defs::GuardDef;
use finny::defs::RegionDef;
use finny::defs::StateDef;
use finny::defs::StateKind;
use finny::defs::TransitionDef;
use finny::events::DomainEvent;
use finny::events::EventKey;
use finny::events::FsmEvent;
use finny::inspect::InspectNull;
use finny::machine::FsmMachine;
use finny::queue::FsmEventQueueVec;
use finny::sem::FsmCurrentState;

const HOME: usize = 0;
const SLOT: usize = 1;
const SUB_A: usize = 2;
const SUB_B: usize = 3;

const SUB_REGION: usize = 1;

const EV_GO: usize = 0;
const EV_BACK: usize = 1;
const EV_RESUME: usize = 2;
const EV_STEP: usize = 3;

fn event(discriminant: usize) -> FsmEvent {
    FsmEvent::Event(DomainEvent { discriminant, payload: 0 })
}

fn plain(region: usize, kind: StateKind) -> StateDef {
    StateDef {
        region,
        data_len: 0,
        entry: Vec::new(),
        exit: Vec::new(),
        kind,
        interrupt: None,
        timers: Vec::new(),
    }
}

fn transition(source: usize, disc: usize, target: usize, shallow: bool) -> TransitionDef {
    TransitionDef {
        source,
        trigger: EventKey::OnEvent(disc),
        guard: GuardDef::Always,
        action: Vec::new(),
        target,
        internal: false,
        shallow_history: shallow,
    }
}

fn build_def() -> FsmDef {
    let states = vec![
        plain(0, StateKind::Normal),
        plain(0, StateKind::SubMachine(1)),
        plain(SUB_REGION, StateKind::Normal),
        plain(SUB_REGION, StateKind::Normal),
    ];
    let transitions = vec![
        transition(HOME, EV_GO, SLOT, false),
        transition(HOME, EV_RESUME, SLOT, true),
        transition(SLOT, EV_BACK, HOME, false),
        transition(SUB_A, EV_STEP, SUB_B, false),
    ];
    FsmDef {
        machine_count: 2,
        regions: vec![
            RegionDef { machine: 0, initial: HOME },
            RegionDef { machine: 1, initial: SUB_A },
        ],
        states,
        transitions,
        timers: Vec::new(),
        context_len: 0,
    }
}

#[test]
fn test_sub_machine_start_and_routing() {
    let mut fsm =
        FsmMachine::new_with(build_def(), FsmEventQueueVec::new(), InspectNull::new()).unwrap();
    fsm.start().unwrap();
    assert!(!fsm.machine_started(1));

    // Entering the slot starts the embedded machine at its initial state.
    fsm.dispatch(event(EV_GO)).unwrap();
    assert!(fsm.machine_started(1));
    assert_eq!(FsmCurrentState::State(SUB_A), fsm.region_state(SUB_REGION));

    // The event is offered to the started sub-machine first.
    fsm.dispatch(event(EV_STEP)).unwrap();
    assert_eq!(FsmCurrentState::State(SUB_B), fsm.region_state(SUB_REGION));
}

#[test]
fn test_shallow_history_resumes_and_restart_resets() {
    let mut fsm =
        FsmMachine::new_with(build_def(), FsmEventQueueVec::new(), InspectNull::new()).unwrap();
    fsm.start().unwrap();

    fsm.dispatch(event(EV_GO)).unwrap();
    fsm.dispatch(event(EV_STEP)).unwrap();
    assert_eq!(FsmCurrentState::State(SUB_B), fsm.region_state(SUB_REGION));

    // Leaving the slot keeps the sub-machine's history.
    fsm.dispatch(event(EV_BACK)).unwrap();
    assert_eq!(FsmCurrentState::State(HOME), fsm.get_current_states()[0]);
    assert!(fsm.machine_started(1));

    // A shallow-history transition resumes where the sub-machine was.
    fsm.dispatch(event(EV_RESUME)).unwrap();
    assert_eq!(FsmCurrentState::State(SUB_B), fsm.region_state(SUB_REGION));

    // A plain transition into the slot re-runs the sub-machine's start.
    fsm.dispatch(event(EV_BACK)).unwrap();
    fsm.dispatch(event(EV_GO)).unwrap();
    assert_eq!(FsmCurrentState::State(SUB_A), fsm.region_state(SUB_REGION));
}
