use core_foundation::runloop::{
    kCFRunLoopAfterWaiting, kCFRunLoopBeforeSources, kCFRunLoopBeforeTimers,
    kCFRunLoopBeforeWaiting, kCFRunLoopEntry, kCFRunLoopExit,
};
use ios_event_loop::run_loop::{
    control_flow_begin_handler, control_flow_end_handler, control_flow_main_end_handler,
    setup_control_flow_observers, Observer, ObserverHandler, RunLoopMode, Transition,
    CORE_ANIMATION_ORDER,
};

const ACTIVITIES: [usize; 6] = [
    kCFRunLoopEntry,
    kCFRunLoopBeforeTimers,
    kCFRunLoopBeforeSources,
    kCFRunLoopBeforeWaiting,
    kCFRunLoopAfterWaiting,
    kCFRunLoopExit,
];

fn asked(activity: usize) -> Vec<Transition> {
    let mut observers = setup_control_flow_observers();
    observers.sort_by_key(|observer| observer.order);
    let mut asked = Vec::new();
    for observer in observers {
        if observer.activities & activity != 0 {
            assert!(observer.handler.is_ready_for(activity));
            asked.extend(observer.handler.handle(activity));
        }
    }
    asked
}

#[test]
fn observers_are_registered_as_documented() {
    assert_eq!(
        setup_control_flow_observers(),
        vec![
            Observer {
                activities: kCFRunLoopAfterWaiting,
                repeats: true,
                order: isize::MIN,
                handler: ObserverHandler::Begin,
                mode: RunLoopMode::Default,
            },
            Observer {
                activities: kCFRunLoopExit | kCFRunLoopBeforeWaiting,
                repeats: true,
                order: 0,
                handler: ObserverHandler::MainEnd,
                mode: RunLoopMode::Default,
            },
            Observer {
                activities: kCFRunLoopExit | kCFRunLoopBeforeWaiting,
                repeats: true,
                order: isize::MAX,
                handler: ObserverHandler::End,
                mode: RunLoopMode::Default,
            },
        ]
    );
}

#[test]
fn activity_flags_have_their_values() {
    let observers = setup_control_flow_observers();
    assert_eq!(observers[0].activities, 0x40);
    assert_eq!(observers[1].activities, 0xa0);
    assert_eq!(observers[2].activities, 0xa0);
}

#[test]
fn drawing_comes_between_the_end_observers() {
    let observers = setup_control_flow_observers();
    assert_eq!(CORE_ANIMATION_ORDER, 2_000_000);
    assert!(observers[0].order < observers[1].order);
    assert!(observers[1].order < CORE_ANIMATION_ORDER);
    assert!(CORE_ANIMATION_ORDER < observers[2].order);
}

#[test]
fn observers_ask_for_transitions_in_order() {
    assert_eq!(asked(kCFRunLoopAfterWaiting), vec![Transition::Wakeup]);
    assert_eq!(
        asked(kCFRunLoopBeforeWaiting),
        vec![Transition::MainEventsCleared, Transition::EventsCleared]
    );
    assert_eq!(asked(kCFRunLoopExit), vec![]);
    assert_eq!(asked(kCFRunLoopEntry), vec![]);
    assert_eq!(asked(kCFRunLoopBeforeTimers), vec![]);
    assert_eq!(asked(kCFRunLoopBeforeSources), vec![]);
}

#[test]
fn handlers_are_ready_for_what_they_observe_alone() {
    for observer in setup_control_flow_observers() {
        for activity in ACTIVITIES {
            assert_eq!(
                observer.handler.is_ready_for(activity),
                observer.activities & activity != 0
            );
        }
        assert!(!observer.handler.is_ready_for(0));
    }
}

#[test]
fn handlers_one_by_one() {
    assert_eq!(control_flow_begin_handler(kCFRunLoopAfterWaiting), Transition::Wakeup);
    assert_eq!(
        control_flow_main_end_handler(kCFRunLoopBeforeWaiting),
        Some(Transition::MainEventsCleared)
    );
    assert_eq!(control_flow_main_end_handler(kCFRunLoopExit), None);
    assert_eq!(
        control_flow_end_handler(kCFRunLoopBeforeWaiting),
        Some(Transition::EventsCleared)
    );
    assert_eq!(control_flow_end_handler(kCFRunLoopExit), None);
}
