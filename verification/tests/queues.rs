//! The three queue backends under their shared contract: growable, bounded
//! (fails once full) and disabled (fails every enqueue); and the engine's
//! first-in-first-served draining order.

use finny::events::DomainEvent;
use finny::events::FsmEvent;
use finny::inspect::InspectRecord;
use finny::inspect::InspectRecorder;
use finny::machine::FsmMachine;
use finny::queue::FsmEventQueueArray;
use finny::queue::FsmEventQueueNull;
use finny::queue::FsmEventQueueVec;
use finny::FsmError;

fn event(discriminant: usize) -> FsmEvent {
    FsmEvent::Event(DomainEvent { discriminant, payload: 0 })
}

#[test]
fn test_bounded_queue_over_capacity() {
    let mut fsm = FsmMachine::new_with(
        finny::example_basic::build_fsm(),
        FsmEventQueueArray::new(2),
        finny::inspect::InspectNull::new(),
    )
    .unwrap();
    assert_eq!(Ok(()), fsm.enqueue(event(7)));
    assert_eq!(Ok(()), fsm.enqueue(event(8)));
    assert_eq!(Err(FsmError::QueueOverCapacity), fsm.enqueue(event(9)));
}

#[test]
fn test_disabled_queue_not_supported() {
    let mut fsm = FsmMachine::new_with(
        finny::example_basic::build_fsm(),
        FsmEventQueueNull::new(),
        finny::inspect::InspectNull::new(),
    )
    .unwrap();
    assert_eq!(Err(FsmError::NotSupported), fsm.enqueue(event(7)));
}

#[test]
fn test_queue_drains_oldest_first() {
    let mut fsm = FsmMachine::new_with(
        finny::example_basic::build_fsm(),
        FsmEventQueueVec::new(),
        InspectRecorder::new(),
    )
    .unwrap();
    fsm.start().unwrap();

    fsm.enqueue(event(20)).unwrap();
    fsm.enqueue(event(21)).unwrap();
    fsm.execute_queued_events();

    // The observer saw the drained events in enqueue order.
    let dispatched: Vec<FsmEvent> = fsm
        .inspect()
        .log()
        .iter()
        .filter_map(|r| match r {
            InspectRecord::NewEvent { ev, .. } => Some(*ev),
            _ => None,
        })
        .collect();
    let pos20 = dispatched.iter().position(|e| *e == event(20));
    let pos21 = dispatched.iter().position(|e| *e == event(21));
    assert!(pos20.is_some());
    assert!(pos21.is_some());
    assert!(pos20.unwrap() < pos21.unwrap());
}
