//! The observers and the calls by which an event loop takes part in the main run loop.

use vstd::prelude::*;

verus! {

/// The modes of the main run loop that the event loop registers itself in.
#[derive(Clone, Copy, Debug, PartialEq, Eq, Structural)]
pub enum RunLoopMode {
    /// The mode that the run loop is driven in.
    Default,
    /// All the modes that count as common.
    Common,
}

/// The flag of the activity "about to go to sleep".
pub open spec fn before_waiting() -> usize {
    0x20
}

/// The flag of the activity "just woken up".
pub open spec fn after_waiting() -> usize {
    0x40
}

/// The flag of the activity "leaving the run loop".
pub open spec fn exit() -> usize {
    0x80
}

/// Reads `core_foundation::runloop::kCFRunLoopBeforeWaiting`, which is bit 5 alone.
#[verifier::external_body]
fn run_loop_before_waiting() -> (activity: usize)
    ensures
        activity == before_waiting(),
{
    core_foundation::runloop::kCFRunLoopBeforeWaiting
}

/// Reads `core_foundation::runloop::kCFRunLoopAfterWaiting`, which is bit 6 alone.
#[verifier::external_body]
fn run_loop_after_waiting() -> (activity: usize)
    ensures
        activity == after_waiting(),
{
    core_foundation::runloop::kCFRunLoopAfterWaiting
}

/// Reads `core_foundation::runloop::kCFRunLoopExit`, which is bit 7 alone.
#[verifier::external_body]
fn run_loop_exit() -> (activity: usize)
    ensures
        activity == exit(),
{
    core_foundation::runloop::kCFRunLoopExit
}

/// What an observer asks of the application state.
#[derive(Clone, Copy, Debug, PartialEq, Eq, Structural)]
pub enum Transition {
    /// The run loop has woken up.
    Wakeup,
    /// All events but redraw events have been handled.
    MainEventsCleared,
    /// All events have been handled.
    EventsCleared,
}

/// The function that an observer calls.
#[derive(Clone, Copy, Debug, PartialEq, Eq, Structural)]
pub enum ObserverHandler {
    /// Runs ahead of all other observers when the run loop wakes up.
    Begin,
    /// Runs ahead of the observers that draw when the run loop is about to sleep.
    MainEnd,
    /// Runs behind all other observers when the run loop is about to sleep.
    End,
}

/// An observer of the main run loop.
#[derive(Clone, Copy, Debug, PartialEq, Eq, Structural)]
pub struct Observer {
    /// The flags of the activities that it is called for.
    pub activities: usize,
    /// Whether it stays registered after its first call.
    pub repeats: bool,
    /// Its place among the observers of one activity: lower ones are called first.
    pub order: isize,
    /// The function that it calls.
    pub handler: ObserverHandler,
    /// The mode that it is registered in.
    pub mode: RunLoopMode,
}

/// The order of the observer by which Core Animation draws.
pub const CORE_ANIMATION_ORDER: isize = 0x1e8480;

impl ObserverHandler {
    /// The activities that this handler is ready for.
    pub open spec fn handles(self, activity: usize) -> bool {
        match self {
            ObserverHandler::Begin => activity == after_waiting(),
            ObserverHandler::MainEnd | ObserverHandler::End => {
                activity == before_waiting() || activity == exit()
            },
        }
    }

    /// What this handler asks for on an activity that it is ready for.
    pub open spec fn response(self, activity: usize) -> Option<Transition> {
        match self {
            ObserverHandler::Begin => Some(Transition::Wakeup),
            ObserverHandler::MainEnd => if activity == before_waiting() {
                Some(Transition::MainEventsCleared)
            } else {
                None
            },
            ObserverHandler::End => if activity == before_waiting() {
                Some(Transition::EventsCleared)
            } else {
                None
            },
        }
    }

    /// Whether this handler is ready for `activity`.
    pub fn is_ready_for(self, activity: usize) -> (ready: bool)
        ensures
            ready == self.handles(activity),
    {
        match self {
            ObserverHandler::Begin => activity == run_loop_after_waiting(),
            ObserverHandler::MainEnd | ObserverHandler::End => {
                activity == run_loop_before_waiting() || activity == run_loop_exit()
            },
        }
    }

    /// Runs this handler on `activity`.
    pub fn handle(self, activity: usize) -> (asked: Option<Transition>)
        requires
            self.handles(activity),
        ensures
            asked == self.response(activity),
    {
        match self {
            ObserverHandler::Begin => Some(control_flow_begin_handler(activity)),
            ObserverHandler::MainEnd => control_flow_main_end_handler(activity),
            ObserverHandler::End => control_flow_end_handler(activity),
        }
    }
}

/// What the first observer does: on waking up, it asks for the wakeup.
pub fn control_flow_begin_handler(activity: usize) -> (asked: Transition)
    requires
        activity == after_waiting(),
    ensures
        asked == Transition::Wakeup,
{
    Transition::Wakeup
}

/// What the observer ahead of drawing does: before the run loop sleeps, it reports that all events
/// but redraws are handled, and on leaving the run loop it asks for nothing.
pub fn control_flow_main_end_handler(activity: usize) -> (asked: Option<Transition>)
    requires
        activity == before_waiting() || activity == exit(),
    ensures
        activity == before_waiting() ==> asked == Some(Transition::MainEventsCleared),
        activity == exit() ==> asked is None,
{
    if activity == run_loop_before_waiting() {
        Some(Transition::MainEventsCleared)
    } else {
        None
    }
}

/// What the last observer does: before the run loop sleeps, it reports that all events are handled,
/// and on leaving the run loop it asks for nothing.
pub fn control_flow_end_handler(activity: usize) -> (asked: Option<Transition>)
    requires
        activity == before_waiting() || activity == exit(),
    ensures
        activity == before_waiting() ==> asked == Some(Transition::EventsCleared),
        activity == exit() ==> asked is None,
{
    if activity == run_loop_before_waiting() {
        Some(Transition::EventsCleared)
    } else {
        None
    }
}

/// The observer that is called first when the run loop wakes up.
pub open spec fn begin_observer() -> Observer {
    Observer {
        activities: after_waiting(),
        repeats: true,
        order: isize::MIN,
        handler: ObserverHandler::Begin,
        mode: RunLoopMode::Default,
    }
}

/// The observer that is called ahead of drawing when the run loop is about to sleep.
pub open spec fn main_end_observer() -> Observer {
    Observer {
        activities: exit() | before_waiting(),
        repeats: true,
        order: 0,
        handler: ObserverHandler::MainEnd,
        mode: RunLoopMode::Default,
    }
}

/// The observer that is called last when the run loop is about to sleep.
pub open spec fn end_observer() -> Observer {
    Observer {
        activities: exit() | before_waiting(),
        repeats: true,
        order: isize::MAX,
        handler: ObserverHandler::End,
        mode: RunLoopMode::Default,
    }
}

/// The observers of an event loop, in the order in which they are registered.
pub open spec fn control_flow_observers() -> Seq<Observer> {
    seq![begin_observer(), main_end_observer(), end_observer()]
}

/// The observers that a new event loop registers with the main run loop, in this order.
pub fn setup_control_flow_observers() -> (observers: Vec<Observer>)
    ensures
        observers@ == control_flow_observers(),
{
    let begin = Observer {
        activities: run_loop_after_waiting(),
        repeats: true,
        order: isize::MIN,
        handler: ObserverHandler::Begin,
        mode: RunLoopMode::Default,
    };
    let main_end = Observer {
        activities: run_loop_exit() | run_loop_before_waiting(),
        repeats: true,
        order: 0,
        handler: ObserverHandler::MainEnd,
        mode: RunLoopMode::Default,
    };
    let end = Observer {
        activities: run_loop_exit() | run_loop_before_waiting(),
        repeats: true,
        order: isize::MAX,
        handler: ObserverHandler::End,
        mode: RunLoopMode::Default,
    };
    vec![begin, main_end, end]
}

/// Whether `activity` is a single activity: a flag with one bit set.
pub open spec fn is_activity(activity: usize) -> bool {
    activity != 0 && activity & (activity - 1) as usize == 0
}

/// Whether `observer` is called for `activity`.
pub open spec fn observes(observer: Observer, activity: usize) -> bool {
    observer.activities & activity != 0
}

/// What the observers ask for, one after another, when the run loop reports `activity`.
pub open spec fn asked_by(observers: Seq<Observer>, activity: usize) -> Seq<Transition>
    decreases observers.len(),
{
    if observers.len() == 0 {
        seq![]
    } else {
        let before = asked_by(observers.drop_last(), activity);
        let last = observers.last();
        match last.handler.response(activity) {
            Some(transition) if observes(last, activity) => before.push(transition),
            _ => before,
        }
    }
}

/// The observers stand in the order in which the run loop calls them: the first is called no later
/// than any other observer, the last no earlier than any other observer, and the middle one ahead
/// of Core Animation's drawing, which is itself ahead of the last.
pub proof fn law_observer_order(other: isize)
    ensures
        forall|i: int, j: int|
            0 <= i < j < control_flow_observers().len() ==> control_flow_observers()[i].order
                < control_flow_observers()[j].order,
        begin_observer().order <= other <= end_observer().order,
        main_end_observer().order < CORE_ANIMATION_ORDER < end_observer().order,
{
}

/// Every observer stays registered after it was called, in the mode that the run loop is driven in.
pub proof fn law_observers_stay(i: int)
    requires
        0 <= i < control_flow_observers().len(),
    ensures
        control_flow_observers().len() == 3,
        control_flow_observers()[i].repeats,
        control_flow_observers()[i].mode == RunLoopMode::Default,
{
}

/// A handler is ready for exactly the single activities that its observer is called for: for nothing
/// that is no activity, and for no activity of others.
pub proof fn law_ready_for_what_is_observed(i: int, activity: usize)
    requires
        0 <= i < control_flow_observers().len(),
    ensures
        control_flow_observers()[i].handler.handles(activity) <==> is_activity(activity)
            && observes(control_flow_observers()[i], activity),
{
    assert((activity != 0 && activity & (activity - 1) as usize == 0 && 0x40usize & activity != 0)
        <==> activity == 0x40) by (bit_vector);
    assert((activity != 0 && activity & (activity - 1) as usize == 0 && (0x80usize | 0x20usize)
        & activity != 0) <==> (activity == 0x20 || activity == 0x80)) by (bit_vector);
}

/// No observer is called for an activity that its handler is not ready for.
pub proof fn law_observers_are_ready(i: int, activity: usize)
    requires
        0 <= i < control_flow_observers().len(),
        is_activity(activity),
        observes(control_flow_observers()[i], activity),
    ensures
        control_flow_observers()[i].handler.handles(activity),
{
    assert(activity != 0 && activity & (activity - 1) as usize == 0 && 0x40usize & activity != 0
        ==> activity == 0x40) by (bit_vector);
    assert(activity != 0 && activity & (activity - 1) as usize == 0 && (0x80usize | 0x20usize)
        & activity != 0 ==> activity == 0x20 || activity == 0x80) by (bit_vector);
}

/// Waking up asks for the wakeup alone; before sleeping, the events but redraws are reported
/// cleared first and all events after that; no other activity asks for anything.
pub proof fn law_observer_transitions(activity: usize)
    requires
        is_activity(activity),
    ensures
        asked_by(control_flow_observers(), activity) == if activity == after_waiting() {
            seq![Transition::Wakeup]
        } else if activity == before_waiting() {
            seq![Transition::MainEventsCleared, Transition::EventsCleared]
        } else {
            seq![]
        },
{
    assert(activity != 0 && activity & (activity - 1) as usize == 0 ==> (0x40usize & activity != 0
        <==> activity == 0x40)) by (bit_vector);
    assert(activity != 0 && activity & (activity - 1) as usize == 0 ==> ((0x80usize | 0x20usize)
        & activity != 0 <==> activity == 0x20 || activity == 0x80)) by (bit_vector);
    let all = control_flow_observers();
    assert(all.drop_last() == seq![begin_observer(), main_end_observer()]);
    assert(all.drop_last().drop_last() == seq![begin_observer()]);
    assert(all.drop_last().drop_last().drop_last() == Seq::<Observer>::empty());
    reveal_with_fuel(asked_by, 4);
}

} // verus!
