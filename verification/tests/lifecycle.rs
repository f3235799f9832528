//! Building, stopping and misdeclaring machines: a malformed definition is
//! rejected, `stop` runs the exit hooks without moving the state vector,
//! and the backend trait ties a declaration to the engine.

use finny::defs::FsmDef;
use finny::defs::RegionDef;
use finny::defs::StateDef;
use finny::defs::StateKind;
use finny::example_basic;
use finny::inspect::InspectNull;
use finny::machine::FsmMachine;
use finny::queue::FsmEventQueueVec;
use finny::sem::FsmCurrentState;
use finny::FsmBackend;
use finny::FsmError;

#[test]
fn test_malformed_definition_rejected() {
    // The region's initial state does not exist.
    let def = FsmDef {
        machine_count: 1,
        regions: vec![RegionDef { machine: 0, initial: 5 }],
        states: vec![StateDef {
            region: 0,
            data_len: 0,
            entry: Vec::new(),
            exit: Vec::new(),
            kind: StateKind::Normal,
            interrupt: None,
            timers: Vec::new(),
        }],
        transitions: Vec::new(),
        timers: Vec::new(),
        context_len: 0,
    };
    let r = FsmMachine::new_with(def, FsmEventQueueVec::new(), InspectNull::new());
    assert!(matches!(r, Err(FsmError::NotSupported)));
}

#[test]
fn test_backend_builds_machine() {
    let backend = example_basic::StateMachine {};
    let def = backend.build_def();
    let mut fsm = FsmMachine::new_with(def, FsmEventQueueVec::new(), InspectNull::new()).unwrap();
    fsm.start().unwrap();
    assert_eq!(
        FsmCurrentState::State(example_basic::STATE_A),
        fsm.get_current_states()[0]
    );
}

#[test]
fn test_stop_runs_exit_hooks_without_moving() {
    let mut fsm = FsmMachine::new_with(
        example_basic::build_fsm(),
        FsmEventQueueVec::new(),
        InspectNull::new(),
    )
    .unwrap();
    fsm.start().unwrap();
    assert_eq!(example_basic::state_a(&fsm).exit, 0);

    fsm.stop().unwrap();

    // The exit hook ran; the state vector is untouched.
    assert_eq!(example_basic::state_a(&fsm).exit, 1);
    assert_eq!(
        FsmCurrentState::State(example_basic::STATE_A),
        fsm.get_current_states()[0]
    );
}

#[test]
fn test_initial_states_set_at_construction() {
    let mut fsm = FsmMachine::new_with(
        example_basic::build_fsm(),
        FsmEventQueueVec::new(),
        InspectNull::new(),
    )
    .unwrap();

    // A fresh machine already shows each region's declared initial state;
    // the entry hooks have not run yet.
    assert_eq!(
        FsmCurrentState::State(example_basic::STATE_A),
        fsm.get_current_states()[0]
    );
    assert_eq!(example_basic::state_a(&fsm).enter, 0);

    // A failing guard before `start` leaves the vector alone.
    let quick = example_basic::EventClick { time: 5 };
    assert_eq!(Err(FsmError::NoTransition), fsm.dispatch(quick.to_event()));
    assert_eq!(
        FsmCurrentState::State(example_basic::STATE_A),
        fsm.get_current_states()[0]
    );
}
