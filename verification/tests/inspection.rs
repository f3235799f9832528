//! The inspection chain: the recorder observes every milestone of a
//! dispatch in protocol order — exit, action, entry each exactly once for an
//! external transition — and the chain fans milestones out to both of its
//! observers.

use finny::example_basic;
use finny::inspect::InspectChain;
use finny::inspect::InspectNull;
use finny::inspect::InspectRecord;
use finny::inspect::InspectRecorder;
use finny::machine::FsmMachine;
use finny::queue::FsmEventQueueVec;
use finny::FsmError;

fn count(log: &[InspectRecord], pred: impl Fn(&InspectRecord) -> bool) -> usize {
    log.iter().filter(|r| pred(r)).count()
}

#[test]
fn test_recorder_sees_protocol_once_per_transition() {
    let mut fsm = FsmMachine::new_with(
        example_basic::build_fsm(),
        FsmEventQueueVec::new(),
        InspectRecorder::new(),
    )
    .unwrap();
    fsm.start().unwrap();

    let before = fsm.inspect().log().len();
    let click = example_basic::EventClick { time: 150 };
    fsm.dispatch(click.to_event()).unwrap();
    let log = &fsm.inspect().log()[before..];

    // Exit, action and entry each ran exactly once.
    let exits = count(log, |r| {
        matches!(r, InspectRecord::StateExit { state, .. } if *state == example_basic::STATE_A)
    });
    let actions = count(log, |r| matches!(r, InspectRecord::OnAction { .. }));
    let enters = count(log, |r| {
        matches!(r, InspectRecord::StateEnter { state, .. } if *state == example_basic::STATE_B)
    });
    assert_eq!(exits, 1);
    assert_eq!(actions, 1);
    assert_eq!(enters, 1);

    // In protocol order: new_event, guard, transition scope, exit, action,
    // entry, event done.
    let pos = |pred: &dyn Fn(&InspectRecord) -> bool| log.iter().position(|r| pred(r)).unwrap();
    let p_new = pos(&|r: &InspectRecord| matches!(r, InspectRecord::NewEvent { .. }));
    let p_guard = pos(&|r: &InspectRecord| matches!(r, InspectRecord::OnGuard { .. }));
    let p_tr = pos(&|r: &InspectRecord| matches!(r, InspectRecord::ForTransition { .. }));
    let p_exit = pos(&|r: &InspectRecord| matches!(r, InspectRecord::StateExit { .. }));
    let p_act = pos(&|r: &InspectRecord| matches!(r, InspectRecord::OnAction { .. }));
    let p_enter = pos(&|r: &InspectRecord| matches!(r, InspectRecord::StateEnter { .. }));
    let p_done = pos(&|r: &InspectRecord| matches!(r, InspectRecord::EventDone { .. }));
    assert!(p_new < p_guard);
    assert!(p_guard < p_tr);
    assert!(p_tr < p_exit);
    assert!(p_exit < p_act);
    assert!(p_act < p_enter);
    assert!(p_enter < p_done);

    // Dispatch completion carries the resulting state vector.
    assert!(matches!(
        &log[p_done],
        InspectRecord::EventDone { states, .. }
            if states.as_slice()
                == [finny::sem::FsmCurrentState::State(example_basic::STATE_B)]
    ));
}

#[test]
fn test_recorder_sees_errors() {
    let mut fsm = FsmMachine::new_with(
        example_basic::build_fsm(),
        FsmEventQueueVec::new(),
        InspectRecorder::new(),
    )
    .unwrap();
    fsm.start().unwrap();

    let before = fsm.inspect().log().len();
    let quick = example_basic::EventClick { time: 5 };
    assert_eq!(Err(FsmError::NoTransition), fsm.dispatch(quick.to_event()));
    let log = &fsm.inspect().log()[before..];
    let errors = count(log, |r| {
        matches!(r, InspectRecord::OnError { error, .. } if *error == FsmError::NoTransition)
    });
    assert_eq!(errors, 1);
}

#[test]
fn test_chain_forwards_to_both() {
    let chain = InspectChain::new(InspectRecorder::new(), InspectRecorder::new());
    let mut fsm =
        FsmMachine::new_with(example_basic::build_fsm(), FsmEventQueueVec::new(), chain).unwrap();
    fsm.start().unwrap();
    let click = example_basic::EventClick { time: 150 };
    fsm.dispatch(click.to_event()).unwrap();

    let first_len = fsm.inspect().first.log().len();
    let second_len = fsm.inspect().second.log().len();
    assert!(first_len > 0);
    assert_eq!(first_len, second_len);
}

#[test]
fn test_null_inspect_is_invisible() {
    let chain = InspectChain::new(InspectNull::new(), InspectRecorder::new());
    let mut fsm =
        FsmMachine::new_with(example_basic::build_fsm(), FsmEventQueueVec::new(), chain).unwrap();
    fsm.start().unwrap();
    let click = example_basic::EventClick { time: 150 };
    fsm.dispatch(click.to_event()).unwrap();
    assert!(fsm.inspect().second.log().len() > 0);
}
