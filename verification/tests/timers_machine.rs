//! The timers machine: a renewing 100 ms timer and a one-shot 200 ms timer
//! counting into state A, and the embedded blinker machine toggling on its
//! own renewing timer. Ticking is driven deterministically in 50 ms steps.

use finny::example_timers;
use finny::example_timers::TimersMachineTimers;
use finny::inspect::InspectNull;
use finny::machine::FsmMachine;
use finny::queue::FsmEventQueueVec;
use finny::sem::FsmCurrentState;
use finny::AllVariants;

const T1_DURATION: u64 = 100;
const T2_DURATION: u64 = 200;
const BLINK_DURATION: u64 = 100;

#[test]
fn test_timers_machine() {
    let timers_variants = TimersMachineTimers::all_variants();
    assert_eq!(
        vec![
            TimersMachineTimers::Timer1,
            TimersMachineTimers::Timer2,
            TimersMachineTimers::BlinkingTimer,
        ],
        timers_variants
    );
    assert_eq!(timers_variants[0].timer_id(), example_timers::TIMER_1);
    assert_eq!(timers_variants[2].timer_id(), example_timers::BLINKING_TIMER);

    let mut fsm = FsmMachine::new_with(
        example_timers::build_fsm(),
        FsmEventQueueVec::new(),
        InspectNull::new(),
    )
    .unwrap();

    fsm.start().unwrap();
    assert!(fsm.machine_started(1));

    // 450 ms of ticks, 50 ms at a time.
    let elapsed1: u64 = 450;
    let mut t: u64 = 0;
    while t < elapsed1 {
        fsm.tick(50);
        t += 50;
    }
    fsm.dispatch_timer_events().unwrap();

    // The renewing timer fired every T1_DURATION, the one-shot exactly once.
    let expected_timers_1: u64 = elapsed1 / T1_DURATION;
    let expected_timers_2: u64 = 1;
    let expected_timers = expected_timers_1 + expected_timers_2;
    assert_eq!(expected_timers, example_timers::timer_count(&fsm));

    fsm.dispatch(example_timers::click_event()).unwrap();

    let elapsed2: u64 = 200;
    let mut t: u64 = 0;
    while t < elapsed2 {
        fsm.tick(50);
        t += 50;
    }
    fsm.dispatch_timer_events().unwrap();

    let expected_toggles: u64 = elapsed1 / BLINK_DURATION + elapsed2 / BLINK_DURATION;

    assert_eq!(
        FsmCurrentState::State(example_timers::STATE_B),
        fsm.get_current_states()[0]
    );

    // State A's timers were cancelled on exit: its count stayed put.
    assert_eq!(expected_timers, example_timers::timer_count(&fsm));
    assert!(example_timers::exited_a(&fsm));

    assert_eq!(expected_toggles, example_timers::toggle_count(&fsm));
}

#[test]
fn test_one_shot_timer_fires_once() {
    let mut fsm = FsmMachine::new_with(
        example_timers::build_fsm(),
        FsmEventQueueVec::new(),
        InspectNull::new(),
    )
    .unwrap();
    fsm.start().unwrap();

    // Exactly T2_DURATION: the one-shot fires once, the renewing timer
    // fires twice, the blinker twice.
    fsm.tick(T2_DURATION);
    fsm.dispatch_timer_events().unwrap();
    assert_eq!(2, example_timers::timer_count(&fsm));

    // The one-shot stays silent from here on.
    fsm.tick(T2_DURATION);
    fsm.dispatch_timer_events().unwrap();
    assert_eq!(3, example_timers::timer_count(&fsm));
}

#[test]
fn test_timer_below_threshold_does_not_fire() {
    let mut fsm = FsmMachine::new_with(
        example_timers::build_fsm(),
        FsmEventQueueVec::new(),
        InspectNull::new(),
    )
    .unwrap();
    fsm.start().unwrap();

    fsm.tick(99);
    fsm.dispatch_timer_events().unwrap();
    assert_eq!(0, example_timers::timer_count(&fsm));
    assert_eq!(0, example_timers::toggle_count(&fsm));

    // The countdown carried over: one more millisecond fires the renewing
    // timers.
    fsm.tick(1);
    fsm.dispatch_timer_events().unwrap();
    assert_eq!(1, example_timers::timer_count(&fsm));
    assert_eq!(1, example_timers::toggle_count(&fsm));
}
