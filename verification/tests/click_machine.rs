//! The example click machines: guarded transitions, entry and exit
//! counting, internal transitions, and the idempotence of reading the
//! current-state vector.

use finny::example_basic;
use finny::example_embedded;
use finny::inspect::InspectNull;
use finny::machine::FsmMachine;
use finny::queue::FsmEventQueueArray;
use finny::queue::FsmEventQueueVec;
use finny::sem::FsmCurrentState;
use finny::FsmError;

#[test]
fn test_click_machine_guard_and_counters() {
    let mut fsm = FsmMachine::new_with(
        example_basic::build_fsm(),
        FsmEventQueueVec::new(),
        InspectNull::new(),
    )
    .unwrap();
    fsm.start().unwrap();

    let a = example_basic::state_a(&fsm);
    assert_eq!(a.enter, 1);
    assert_eq!(a.exit, 0);
    let c = example_basic::context(&fsm);
    assert_eq!(c.count, 1);

    // Too quick: the guard wants more than 100.
    let quick = example_basic::EventClick { time: 100 };
    assert_eq!(Err(FsmError::NoTransition), fsm.dispatch(quick.to_event()));
    assert_eq!(
        FsmCurrentState::State(example_basic::STATE_A),
        fsm.get_current_states()[0]
    );

    let slow = example_basic::EventClick { time: 123 };
    fsm.dispatch(slow.to_event()).unwrap();
    assert_eq!(
        FsmCurrentState::State(example_basic::STATE_B),
        fsm.get_current_states()[0]
    );

    let a = example_basic::state_a(&fsm);
    assert_eq!(a.enter, 1);
    assert_eq!(a.exit, 1);
    let b = example_basic::state_b(&fsm);
    assert_eq!(b.counter, 1);
    let c = example_basic::context(&fsm);
    assert_eq!(c.count, 2);
    assert_eq!(c.total_time, 123);
}

#[test]
fn test_embedded_machine_internal_transition() {
    let mut fsm = FsmMachine::new_with(
        example_embedded::build_fsm(),
        FsmEventQueueArray::new(16),
        InspectNull::new(),
    )
    .unwrap();
    fsm.start().unwrap();

    let click = example_embedded::EventClick { time: 150 };
    fsm.dispatch(click.to_event()).unwrap();
    assert_eq!(
        FsmCurrentState::State(example_embedded::STATE_B),
        fsm.get_current_states()[0]
    );
    assert_eq!(example_embedded::state_b(&fsm).counter, 1);

    // Enter without shift: the internal transition bumps the counter and
    // keeps the state (no exit, no re-entry).
    let enter = example_embedded::EventEnter { shift: false };
    fsm.dispatch(enter.to_event()).unwrap();
    assert_eq!(example_embedded::state_b(&fsm).counter, 2);
    assert_eq!(
        FsmCurrentState::State(example_embedded::STATE_B),
        fsm.get_current_states()[0]
    );

    // Enter with shift fails the guard.
    let shifted = example_embedded::EventEnter { shift: true };
    assert_eq!(Err(FsmError::NoTransition), fsm.dispatch(shifted.to_event()));
    assert_eq!(example_embedded::state_b(&fsm).counter, 2);
}

#[test]
fn test_get_current_states_idempotent() {
    let mut fsm = FsmMachine::new_with(
        example_basic::build_fsm(),
        FsmEventQueueVec::new(),
        InspectNull::new(),
    )
    .unwrap();
    fsm.start().unwrap();

    let first = fsm.get_current_states();
    let second = fsm.get_current_states();
    let third = fsm.get_current_states();
    assert_eq!(first, second);
    assert_eq!(second, third);
}
