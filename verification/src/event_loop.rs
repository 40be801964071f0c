//! The event loop and its drivers.
//!
//! A driver alternates between decisions and work on the main run loop. The decisions are made
//! here, a step at a time; whoever drives the run loop performs what a step asks for.

use crate::app_state::AppState;
#[allow(unused_imports)]
use crate::app_state::CallbackOp;
#[allow(unused_imports)]
use crate::channel::{after_ops, received, ChannelOp, ChannelState};
use crate::channel::{channel, Channel, Receiver, Sender};
use crate::control_flow::{run_slice, PumpStatus, RunSlice};
#[allow(unused_imports)]
use crate::control_flow::{slice_nanos, timeout_nanos, ControlFlow};
#[allow(unused_imports)]
use crate::event::Event;
use crate::handler::{DriverEventLoopHandler, EventLoopHandler};
#[allow(unused_imports)]
use crate::handler::{lemma_user_calls, user_calls};
#[allow(unused_imports)]
use crate::launch::{pump_refusal, run_refusal};
use crate::launch::{Environment, Launch, Process};
use crate::proxy::{EventLoopProxy, SourceCall};
#[allow(unused_imports)]
use crate::proxy::set_up_calls;
#[allow(unused_imports)]
use crate::run_loop::control_flow_observers;
use crate::run_loop::{setup_control_flow_observers, Observer, RunLoopMode};
use crate::time::{Duration, Instant};
use crate::window_target::EventLoopWindowTarget;
use std::collections::VecDeque;
use std::marker::PhantomData;
use vstd::prelude::*;

verus! {

/// Attributes of an event loop that only this platform has: none.
#[derive(Clone, Copy, Debug, Default, PartialEq, Eq, Hash)]
pub struct PlatformSpecificEventLoopAttributes {}

/// An error that an event loop can report.
#[derive(Clone, Copy, Debug, PartialEq, Eq, Structural)]
pub enum EventLoopError {
    /// The platform does not support what was asked for.
    NotSupported,
    /// The event loop ended with this exit code.
    ExitFailure(i32),
}

/// An event loop. It owns the receiving end of the channel that the user's events come from, and a
/// sending end for its proxies.
pub struct EventLoop<T> {
    /// The sending end that proxies get.
    pub sender: Sender,
    /// The receiving end of the channel that the user's events come from.
    pub receiver: Receiver,
    /// The handle that the callbacks get.
    pub window_target: EventLoopWindowTarget<T>,
}

impl<T> EventLoop<T> {
    /// What proxies send is what the event loop receives.
    pub open spec fn well_formed(&self) -> bool {
        self.sender.channel == self.receiver@
    }
}

/// What a driver that runs until an exit is requested does next.
#[derive(Clone, Copy, Debug, PartialEq, Eq)]
pub enum Drive {
    /// Pumps events with this timeout.
    Pump(Option<Duration>),
    /// Returns this to its caller.
    Return(Result<(), EventLoopError>),
}

/// What a driver does next, with the timeout in nanoseconds.
pub enum DriveView {
    /// Pumps events with this timeout.
    Pump(Option<nat>),
    /// Returns this to its caller.
    Return(Result<(), EventLoopError>),
}

impl View for Drive {
    type V = DriveView;

    open spec fn view(&self) -> DriveView {
        match *self {
            Drive::Pump(timeout) => DriveView::Pump(timeout_nanos(timeout)),
            Drive::Return(result) => DriveView::Return(result),
        }
    }
}

/// The status of a pump that ends in `state`.
pub open spec fn pump_status<H>(state: AppState<H>) -> PumpStatus {
    if state.exit_requested {
        PumpStatus::Exit(0)
    } else {
        PumpStatus::Continue
    }
}

/// What a driver that runs until an exit is requested does next at the time `now`, where `last` is
/// the status of the pump that it has just done, if it has done one.
pub open spec fn next_drive<H>(state: AppState<H>, last: Option<PumpStatus>, now: nat) -> DriveView {
    match last {
        Some(PumpStatus::Exit(_)) => DriveView::Return(Ok(())),
        _ => DriveView::Pump(state.control_flow.slice_bound(now)),
    }
}

/// The state in which such a driver leaves `state` when it makes that decision.
pub open spec fn after_next_drive<H>(state: AppState<H>, last: Option<PumpStatus>) -> AppState<H> {
    match last {
        Some(PumpStatus::Exit(_)) => AppState { exit_requested: false, ..state },
        _ => state,
    }
}

impl<T> EventLoop<T> {
    /// The event loop of this process, the channel that its user events go through, and the
    /// observers to register with the main run loop, in this order. `id` is a number that no other
    /// channel has.
    pub fn new<E>(
        _attributes: &PlatformSpecificEventLoopAttributes,
        process: &mut Process<E>,
        env: Environment,
        id: u64,
    ) -> (made: Result<(EventLoop<T>, Channel<T>, Vec<Observer>), EventLoopError>)
        requires
            old(process).creation_refusal(env) is None,
        ensures
            *final(process) == (Process { singleton_init: true, ..*old(process) }),
            made matches Ok((event_loop, channel, observers)) && {
                &&& event_loop.well_formed()
                &&& event_loop.receiver@ == id
                &&& event_loop.sender.channel == id
                &&& channel@ == (ChannelState { id, pending: Seq::<T>::empty(), open: true })
                &&& observers@ == control_flow_observers()
            },
    {
        process.singleton_init = true;
        let (channel, sender, receiver) = channel(id);
        let event_loop = EventLoop {
            sender,
            receiver,
            window_target: EventLoopWindowTarget { p: PhantomData },
        };
        Ok((event_loop, channel, setup_control_flow_observers()))
    }

    /// Ends this event loop, and with it the channel that the user's events come from. Returns the
    /// events that were not yet received, for the caller to drop.
    pub fn close(self, channel: &mut Channel<T>) -> (lost: VecDeque<T>)
        requires
            self.receiver@ == old(channel)@.id,
        ensures
            final(channel)@ == old(channel)@.after_drop_receiver(),
            final(channel)@.id == old(channel)@.id,
            !final(channel)@.open,
            final(channel)@.pending.len() == 0,
            lost@ == old(channel)@.pending,
    {
        self.receiver.disconnect(channel)
    }

    /// Runs the event loop for good: puts its handler in place, which now owns the receiving end of
    /// the channel, and returns the call that starts the application. That call does not return.
    ///
    /// `wrap` joins the user's callback to the handler.
    pub fn run<N, H, W: FnOnce(EventLoopHandler<T, N>) -> H>(
        self,
        state: &mut AppState<H>,
        env: Environment,
        wrap: W,
    ) -> (launch: Launch)
        requires
            run_refusal(env) is None,
            forall|handler: EventLoopHandler<T, N>| wrap.requires((handler,)),
        ensures
            exists|handler: EventLoopHandler<T, N>, installed: H|
                {
                    &&& handler.receiver == self.receiver
                    &&& handler.event_loop == self.window_target
                    &&& #[trigger] wrap.ensures((handler,), installed)
                    &&& *final(state) == (AppState { handler: Some(installed), ..*old(state) })
                },
            launch.is_application_main(),
    {
        let handler = EventLoopHandler::new(self.receiver, self.window_target);
        let installed = wrap(handler);
        state.will_launch(installed);
        Launch::application_main()
    }

    /// Begins to pump events: puts a handler of this event loop's user events in place, and returns
    /// the slice for which the main run loop is to be driven. `finish_pump_events` comes after that.
    ///
    /// `wrap` joins the user's callback to the handler.
    pub fn pump_events<N, H, W: FnOnce(DriverEventLoopHandler<T, N>) -> H>(
        &self,
        state: &mut AppState<H>,
        env: Environment,
        timeout: Option<Duration>,
        wrap: W,
    ) -> (slice: RunSlice)
        requires
            pump_refusal(env) is None,
            forall|handler: DriverEventLoopHandler<T, N>| wrap.requires((handler,)),
        ensures
            exists|handler: DriverEventLoopHandler<T, N>, installed: H|
                {
                    &&& handler.receiver.channel == self.receiver@
                    &&& #[trigger] wrap.ensures((handler,), installed)
                    &&& *final(state) == (AppState { handler: Some(installed), ..*old(state) })
                },
            slice.mode == RunLoopMode::Default,
            slice.duration@ == slice_nanos(timeout_nanos(timeout)),
            timeout matches Some(span) ==> slice.duration@ == span@,
            timeout is None ==> slice.duration@ == 1_000_000_000,
            !slice.return_after_source_handled,
    {
        let event_loop = EventLoopWindowTarget { p: PhantomData };
        let handler = DriverEventLoopHandler::new(self.receiver.borrow(), event_loop);
        let installed = wrap(handler);
        state.install_handler(installed);
        run_slice(timeout)
    }

    /// Ends to pump events: takes the handler back out, so that it does not outlive the call, and
    /// says whether an exit is requested.
    pub fn finish_pump_events<H>(&self, state: &mut AppState<H>) -> (finished: (
        Option<H>,
        PumpStatus,
    ))
        ensures
            *final(state) == (AppState { handler: None::<H>, ..*old(state) }),
            finished.0 == old(state).handler,
            finished.1 == pump_status(*old(state)),
            finished.1 == PumpStatus::Exit(0) <==> old(state).exit_requested,
            finished.1 == PumpStatus::Continue <==> !old(state).exit_requested,
    {
        let handler = state.take_handler();
        if state.exit_requested() {
            (handler, PumpStatus::Exit(0))
        } else {
            (handler, PumpStatus::Continue)
        }
    }

    /// The next step of running until an exit is requested. `last` is the status of the pump that
    /// was done in the step before, if there was one, and `now` the current time.
    pub fn run_on_demand<H>(
        &self,
        state: &mut AppState<H>,
        last: Option<PumpStatus>,
        now: Instant,
    ) -> (next: Drive)
        ensures
            next@ == next_drive(*old(state), last, now@),
            *final(state) == after_next_drive(*old(state), last),
            next is Return <==> (last matches Some(status) && status is Exit),
            next matches Drive::Return(result) ==> result is Ok,
            next matches Drive::Pump(timeout) ==> (match old(state).control_flow {
                ControlFlow::Poll => timeout matches Some(span) && span@ == 0,
                ControlFlow::Wait => timeout is None,
                ControlFlow::WaitUntil(deadline) => timeout matches Some(span) && {
                    &&& deadline@ >= now@ ==> now@ + span@ == deadline@
                    &&& deadline@ <= now@ ==> span@ == 0
                },
            }),
            final(state).control_flow == old(state).control_flow,
            final(state).handler == old(state).handler,
            final(state).exit_requested <==> old(state).exit_requested && next is Pump,
    {
        match last {
            Some(PumpStatus::Exit(_)) => {
                state.clear_exit();
                Drive::Return(Ok(()))
            },
            _ => {
                let control_flow = self.window_target.control_flow(state);
                Drive::Pump(control_flow.slice_timeout(now))
            },
        }
    }

    /// A proxy to this event loop that owns `source`, which was just created for it, and the calls
    /// that set the source up.
    pub fn create_proxy<S: Copy>(&self, source: S) -> (made: (
        EventLoopProxy<T, S>,
        Vec<SourceCall<S>>,
    ))
        ensures
            made.0.sender == self.sender,
            made.0.source == source,
            made.1@ == set_up_calls(source),
            made.1@.len() == 2,
            made.1@[0] == (SourceCall::AddToMain { source, mode: RunLoopMode::Common }),
            made.1@[1] is WakeUpMain,
    {
        EventLoopProxy::new(self.sender, source)
    }

    /// The handle that the callbacks get.
    pub fn window_target(&self) -> (target: &EventLoopWindowTarget<T>)
        ensures
            *target == self.window_target,
    {
        &self.window_target
    }
}

/// The state of a pump that has put `handler` in place and in which the callbacks have done `ops`.
pub open spec fn during_pump<H>(
    state: AppState<H>,
    handler: H,
    ops: Seq<CallbackOp>,
) -> AppState<H> {
    let begun = AppState { handler: Some(handler), ..state };
    begun.after_callbacks(ops)
}

/// The state after a whole pump with `handler` in which the callbacks do `ops`.
pub open spec fn after_pump<H>(
    state: AppState<H>,
    handler: H,
    ops: Seq<CallbackOp>,
) -> AppState<H> {
    let driven = during_pump(state, handler, ops);
    AppState { handler: None, ..driven }
}

/// The handler that a pump puts in place stays there until the pump ends and is gone afterwards,
/// and the pump reports an exit exactly if one is requested when it ends.
pub proof fn law_pump<H>(state: AppState<H>, handler: H, ops: Seq<CallbackOp>)
    ensures
        during_pump(state, handler, ops).handler == Some(handler),
        after_pump(state, handler, ops).handler is None,
        pump_status(during_pump(state, handler, ops)) == pump_status(
            after_pump(state, handler, ops),
        ),
{
    let begun = AppState { handler: Some(handler), ..state };
    crate::app_state::law_callbacks_keep_handler(begun, ops);
}

/// A pump reports an exit exactly if one is requested, with the code of success, and goes on
/// otherwise. Neither the control flow nor the handler makes a difference.
pub proof fn law_status_tells_request<H>(state: AppState<H>)
    ensures
        pump_status(state) == PumpStatus::Exit(0) <==> state.exit_requested,
        pump_status(state) == PumpStatus::Continue <==> !state.exit_requested,
{
}

/// A driver returns exactly after a pump that has reported an exit, whatever the code, and then
/// without an error and with the request withdrawn. In every other case, the first one too, it pumps
/// and leaves the request as it is. It changes nothing else.
pub proof fn law_driver_returns_after_exit<H>(
    state: AppState<H>,
    last: Option<PumpStatus>,
    now: nat,
)
    ensures
        next_drive(state, last, now) is Return <==> (last matches Some(status) && status is Exit),
        next_drive(state, last, now) matches DriveView::Return(result) ==> result is Ok,
        after_next_drive(state, last).exit_requested <==> state.exit_requested && next_drive(
            state,
            last,
            now,
        ) is Pump,
        after_next_drive(state, last).control_flow == state.control_flow,
        after_next_drive(state, last).handler == state.handler,
{
}

/// Whenever a driver decides to pump, whatever the status of the pump before, the control flow that
/// is set at that moment decides on the timeout and on the length of the slice that follows: nothing
/// when polling, no timeout and a second when waiting, and otherwise the time that is left until the
/// deadline, nothing if the deadline is past.
pub proof fn law_driver_obeys_control_flow<H>(
    state: AppState<H>,
    last: Option<PumpStatus>,
    now: nat,
)
    requires
        !(last matches Some(status) && status is Exit),
    ensures
        next_drive(state, last, now) matches DriveView::Pump(timeout) && {
            &&& state.control_flow is Poll ==> timeout == Some(0nat) && slice_nanos(timeout) == 0
            &&& state.control_flow is Wait ==> timeout is None && slice_nanos(timeout)
                == 1_000_000_000
            &&& state.control_flow matches ControlFlow::WaitUntil(deadline) ==> {
                &&& timeout == Some(slice_nanos(timeout))
                &&& deadline@ >= now ==> now + slice_nanos(timeout) == deadline@
                &&& deadline@ <= now ==> slice_nanos(timeout) == 0
            }
        },
{
}

/// Two drivers that both pump, at the same time and with the same control flow, pump with the same
/// timeout: neither the pump before, nor the handler, nor a request for an exit makes a difference.
pub proof fn law_only_control_flow_counts<H>(
    state: AppState<H>,
    last: Option<PumpStatus>,
    other: AppState<H>,
    other_last: Option<PumpStatus>,
    now: nat,
)
    requires
        state.control_flow == other.control_flow,
        next_drive(state, last, now) is Pump,
        next_drive(other, other_last, now) is Pump,
    ensures
        next_drive(state, last, now) == next_drive(other, other_last, now),
{
}

/// What a driver decides keeps the length of each timeout, and whether there is one.
pub proof fn law_decision_keeps_timeout(
    timeout: Option<Duration>,
    result: Result<(), EventLoopError>,
)
    ensures
        Drive::Pump(timeout)@ matches DriveView::Pump(nanos) && {
            &&& timeout matches Some(span) ==> nanos == Some(span@)
            &&& timeout is None ==> nanos is None
        },
        Drive::Return(result)@ == DriveView::Return(result),
{
}

/// The control flow that the callbacks of a pump set last, at `set`, is the one by which the driver
/// decides on the next slice.
pub proof fn law_callbacks_choose_next_slice<H>(
    state: AppState<H>,
    handler: H,
    ops: Seq<CallbackOp>,
    set: int,
    now: nat,
)
    requires
        0 <= set < ops.len(),
        ops[set] is SetControlFlow,
        forall|i: int| set < i < ops.len() ==> !(#[trigger] ops[i] is SetControlFlow),
        !after_pump(state, handler, ops).exit_requested,
    ensures
        ({
            let driven = after_pump(state, handler, ops);
            let next = next_drive(driven, Some(pump_status(driven)), now);
            &&& ops[set] == CallbackOp::SetControlFlow(ControlFlow::Poll) ==> next
                == DriveView::Pump(Some(0))
            &&& ops[set] == CallbackOp::SetControlFlow(ControlFlow::Wait) ==> next
                == DriveView::Pump(None)
            &&& ops[set] matches CallbackOp::SetControlFlow(ControlFlow::WaitUntil(deadline)) ==> {
                &&& next matches DriveView::Pump(Some(nanos))
                &&& deadline@ >= now ==> now + nanos == deadline@
                &&& deadline@ <= now ==> nanos == 0
            }
        }),
{
    let begun = AppState { handler: Some(handler), ..state };
    crate::app_state::law_last_sets_control_flow(begun, ops, set);
}

/// A request for an exit that stands before a pump outlasts it and is reported by it, unless a
/// callback withdraws it.
pub proof fn law_request_outlasts_pump<H>(state: AppState<H>, handler: H, ops: Seq<CallbackOp>)
    requires
        state.exit_requested,
        forall|i: int| 0 <= i < ops.len() ==> !(#[trigger] ops[i] is ClearExit),
    ensures
        after_pump(state, handler, ops).exit_requested,
        pump_status(during_pump(state, handler, ops)) == PumpStatus::Exit(0),
{
    let begun = AppState { handler: Some(handler), ..state };
    crate::app_state::law_request_persists(begun, ops);
}

/// What proxies send through the sender of an event loop goes into the channel that the handlers of
/// that event loop receive from.
pub proof fn law_proxies_reach_handlers<T, N, S>(
    event_loop: EventLoop<T>,
    proxy: EventLoopProxy<T, S>,
    handler: EventLoopHandler<T, N>,
    driver: DriverEventLoopHandler<T, N>,
)
    requires
        event_loop.well_formed(),
        proxy.sender == event_loop.sender,
        handler.receiver == event_loop.receiver,
        driver.receiver.channel == event_loop.receiver@,
    ensures
        proxy.sender.channel == crate::handler::EventHandler::receives_from(&handler),
        proxy.sender.channel == crate::handler::EventHandler::receives_from(&driver),
{
}

/// A slice of a run, from the end of the slice before to its own end.
pub struct Slice<T> {
    /// What is sent before the driver has its handler in place.
    pub sent_before: Seq<T>,
    /// The time at which the driver decides on the slice.
    pub now: nat,
    /// What the callbacks do to the application state, one after another.
    pub ops: Seq<CallbackOp>,
    /// What is sent while the handler is in place, and when the handler asks for user events.
    pub traffic: Seq<ChannelOp<T>>,
}

/// The operations that send `events`, one after another.
pub open spec fn sends<T>(events: Seq<T>) -> Seq<ChannelOp<T>> {
    events.map_values(|event: T| ChannelOp::Send(event))
}

/// A user event that is handed to the callback.
pub struct UserCall<H, T, N> {
    /// The handler that is in place when the event is handed over.
    pub handler: Option<H>,
    /// The event.
    pub event: Event<T, N>,
}

/// How far a run has come.
pub struct Run<H, T, N> {
    /// The application state.
    pub state: AppState<H>,
    /// The channel of the event loop.
    pub channel: ChannelState<T>,
    /// The status of the last pump, if there was one.
    pub last: Option<PumpStatus>,
    /// How many pumps were done.
    pub pumps: nat,
    /// All that was sent since the run began, in order.
    pub sent: Seq<T>,
    /// All that was handed to the callback since the run began, in order.
    pub calls: Seq<UserCall<H, T, N>>,
    /// What the driver returned, if it has returned.
    pub returned: Option<Result<(), EventLoopError>>,
}

/// One step of a run with `handler`: the driver decides, and if it decides to pump, the pump is
/// done.
pub open spec fn step<H, T, N>(run: Run<H, T, N>, handler: H, slice: Slice<T>) -> Run<H, T, N> {
    if run.returned is Some {
        run
    } else {
        let arrived = after_ops(run.channel, sends(slice.sent_before));
        let decided = after_next_drive(run.state, run.last);
        match next_drive(run.state, run.last, slice.now) {
            DriveView::Return(result) => Run {
                state: decided,
                channel: arrived,
                sent: run.sent + slice.sent_before,
                returned: Some(result),
                ..run
            },
            DriveView::Pump(_) => {
                let driven = during_pump(decided, handler, slice.ops);
                let calls = user_calls::<T, N>(arrived, slice.traffic);
                Run {
                    state: after_pump(decided, handler, slice.ops),
                    channel: after_ops(arrived, slice.traffic),
                    last: Some(pump_status(driven)),
                    pumps: run.pumps + 1,
                    sent: run.sent + slice.sent_before + crate::channel::sent(slice.traffic),
                    calls: run.calls + calls.map_values(
                        |event: Event<T, N>| UserCall { handler: driven.handler, event },
                    ),
                    returned: None,
                }
            },
        }
    }
}

/// A run with `handler` that begins with `state` and `channel`, after one step for each of `slices`.
pub open spec fn run_of<H, T, N>(
    state: AppState<H>,
    channel: ChannelState<T>,
    handler: H,
    slices: Seq<Slice<T>>,
) -> Run<H, T, N>
    decreases slices.len(),
{
    if slices.len() == 0 {
        Run {
            state,
            channel,
            last: None,
            pumps: 0,
            sent: seq![],
            calls: seq![],
            returned: None,
        }
    } else {
        step(run_of(state, channel, handler, slices.drop_last()), handler, slices.last())
    }
}

/// The state after the pumps of `slices` with `handler`, one after another.
pub open spec fn after_pumps<H, T>(
    state: AppState<H>,
    handler: H,
    slices: Seq<Slice<T>>,
) -> AppState<H>
    decreases slices.len(),
{
    if slices.len() == 0 {
        state
    } else {
        after_pump(after_pumps(state, handler, slices.drop_last()), handler, slices.last().ops)
    }
}

/// Whether an exit is requested at the end of none of the pumps of `slices` but, maybe, the last.
pub open spec fn no_exit_before_last<H, T>(
    state: AppState<H>,
    handler: H,
    slices: Seq<Slice<T>>,
) -> bool {
    forall|k: int|
        0 < k < slices.len() ==> !(#[trigger] after_pumps(
            state,
            handler,
            slices.take(k),
        )).exit_requested
}

/// For as long as no pump ends with an exit requested, the driver goes on: it pumps in every step,
/// also in the first one, whether or not an exit was requested before the run.
pub proof fn law_runs_until_exit<H, T, N>(
    state: AppState<H>,
    channel: ChannelState<T>,
    handler: H,
    slices: Seq<Slice<T>>,
)
    requires
        no_exit_before_last(state, handler, slices),
    ensures
        run_of::<H, T, N>(state, channel, handler, slices).returned is None,
        run_of::<H, T, N>(state, channel, handler, slices).pumps == slices.len(),
        run_of::<H, T, N>(state, channel, handler, slices).state == after_pumps(
            state,
            handler,
            slices,
        ),
        run_of::<H, T, N>(state, channel, handler, slices).last == if slices.len() > 0 {
            Some(pump_status(after_pumps(state, handler, slices)))
        } else {
            None
        },
    decreases slices.len(),
{
    if slices.len() > 0 {
        let before = slices.drop_last();
        assert forall|k: int| 0 < k < before.len() implies !(#[trigger] after_pumps(
            state,
            handler,
            before.take(k),
        )).exit_requested by {
            assert(before.take(k) == slices.take(k));
        }
        law_runs_until_exit::<H, T, N>(state, channel, handler, before);
        if before.len() > 0 {
            assert(slices.take(before.len() as int) == before);
            assert(!after_pumps(state, handler, slices.take(before.len() as int)).exit_requested);
        }
    }
}

/// The driver returns after the first pump that ends with an exit requested, without another pump,
/// without another call of the callback, and without an error. The request is withdrawn then, so
/// that the event loop can be run again; no handler is left behind, and the control flow is the one
/// that the callbacks left.
pub proof fn law_returns_on_exit<H, T, N>(
    state: AppState<H>,
    channel: ChannelState<T>,
    handler: H,
    slices: Seq<Slice<T>>,
    idle: Slice<T>,
)
    requires
        slices.len() > 0,
        no_exit_before_last(state, handler, slices),
        after_pumps(state, handler, slices).exit_requested,
    ensures
        ({
            let driven = run_of::<H, T, N>(state, channel, handler, slices);
            let ended = run_of::<H, T, N>(state, channel, handler, slices.push(idle));
            &&& ended.returned == Some(Ok::<(), EventLoopError>(()))
            &&& ended.pumps == slices.len()
            &&& ended.calls == driven.calls
            &&& ended.state == (AppState {
                exit_requested: false,
                ..after_pumps(state, handler, slices)
            })
            &&& ended.state.handler is None
        }),
{
    law_runs_until_exit::<H, T, N>(state, channel, handler, slices);
    assert(slices.push(idle).drop_last() == slices);
}

/// After the driver has returned the run is over: nothing more is pumped or handed to the callback.
pub proof fn law_nothing_after_return<H, T, N>(
    state: AppState<H>,
    channel: ChannelState<T>,
    handler: H,
    slices: Seq<Slice<T>>,
    later: Slice<T>,
)
    requires
        run_of::<H, T, N>(state, channel, handler, slices).returned is Some,
    ensures
        run_of::<H, T, N>(state, channel, handler, slices.push(later)) == run_of::<H, T, N>(
            state,
            channel,
            handler,
            slices,
        ),
{
    assert(slices.push(later).drop_last() == slices);
}

/// An event loop whose run has returned can be run again: the first pump of the next run reports no
/// exit, unless a callback requests one anew.
pub proof fn law_runs_again<H, T, N>(
    run: Run<H, T, N>,
    handler: H,
    idle: Slice<T>,
    next_handler: H,
    next: Slice<T>,
)
    requires
        run.returned is None,
        step(run, handler, idle).returned is Some,
        forall|i: int| 0 <= i < next.ops.len() ==> !(#[trigger] next.ops[i] is Exit),
    ensures
        ({
            let ended = step(run, handler, idle);
            let again = run_of::<H, T, N>(ended.state, ended.channel, next_handler, seq![next]);
            &&& again.last == Some(PumpStatus::Continue)
            &&& again.pumps == 1
        }),
{
    let ended = step(run, handler, idle);
    let begun = AppState { handler: Some(next_handler), ..ended.state };
    crate::app_state::law_no_exit_unrequested(begun, next.ops);
    assert(seq![next].drop_last() == Seq::<Slice<T>>::empty());
    reveal_with_fuel(run_of, 2);
}

/// The one handler of a run serves all its slices: it is in place at every moment of every slice,
/// every user event is handed over while it is in place, and it is gone when a pump has ended.
pub proof fn law_one_handler_serves_all<H, T, N>(
    state: AppState<H>,
    channel: ChannelState<T>,
    handler: H,
    slices: Seq<Slice<T>>,
    moment: Seq<CallbackOp>,
)
    ensures
        ({
            let run = run_of::<H, T, N>(state, channel, handler, slices);
            &&& during_pump(after_next_drive(run.state, run.last), handler, moment).handler == Some(
                handler,
            )
            &&& forall|i: int| 0 <= i < run.calls.len() ==> (#[trigger] run.calls[i]).handler
                == Some(handler)
            &&& run.pumps > 0 ==> run.state.handler is None
        }),
    decreases slices.len(),
{
    let run = run_of::<H, T, N>(state, channel, handler, slices);
    law_pump(after_next_drive(run.state, run.last), handler, moment);
    if slices.len() > 0 {
        let before = run_of::<H, T, N>(state, channel, handler, slices.drop_last());
        law_one_handler_serves_all::<H, T, N>(
            state,
            channel,
            handler,
            slices.drop_last(),
            slices.last().ops,
        );
        assert(run == step(before, handler, slices.last()));
        assert forall|i: int| 0 <= i < run.calls.len() implies (#[trigger] run.calls[i]).handler
            == Some(handler) by {
            if i < before.calls.len() {
                assert(run.calls[i] == before.calls[i]);
            }
        }
    }
}

/// The events of `calls`, in order.
pub open spec fn handed_over<H, T, N>(calls: Seq<UserCall<H, T, N>>) -> Seq<Event<T, N>> {
    calls.map_values(|call: UserCall<H, T, N>| call.event)
}

/// `events` as user events.
pub open spec fn as_user_events<T, N>(events: Seq<T>) -> Seq<Event<T, N>> {
    events.map_values(|event: T| Event::UserEvent(event))
}

/// A run neither loses, repeats nor reorders user events, over all its slices and also if they are
/// sent during the run: what was handed to the callback, followed by what is still pending, is what
/// was pending when the run began, followed by what was sent since. The channel stays open.
pub proof fn law_run_hands_over_in_order<H, T, N>(
    state: AppState<H>,
    channel: ChannelState<T>,
    handler: H,
    slices: Seq<Slice<T>>,
)
    requires
        channel.open,
    ensures
        ({
            let run = run_of::<H, T, N>(state, channel, handler, slices);
            &&& run.channel.open
            &&& run.channel.id == channel.id
            &&& handed_over(run.calls) + as_user_events(run.channel.pending) == as_user_events::<
                T,
                N,
            >(channel.pending + run.sent)
        }),
    decreases slices.len(),
{
    let run = run_of::<H, T, N>(state, channel, handler, slices);
    if slices.len() == 0 {
        assert(channel.pending + run.sent == channel.pending);
        assert(handed_over(run.calls) + as_user_events(channel.pending) == as_user_events::<T, N>(
            channel.pending,
        ));
    } else {
        let before = run_of::<H, T, N>(state, channel, handler, slices.drop_last());
        let slice = slices.last();
        law_run_hands_over_in_order::<H, T, N>(state, channel, handler, slices.drop_last());
        assert(run == step(before, handler, slice));
        if before.returned is None {
            let arrived = after_ops(before.channel, sends(slice.sent_before));
            lemma_after_sends(before.channel, slice.sent_before);
            assert(as_user_events::<T, N>(arrived.pending) == as_user_events::<T, N>(
                before.channel.pending,
            ) + as_user_events(slice.sent_before));
            let base = channel.pending + before.sent;
            match next_drive(before.state, before.last, slice.now) {
                DriveView::Return(_) => {
                    assert(as_user_events::<T, N>(channel.pending + run.sent) == as_user_events::<
                        T,
                        N,
                    >(base) + as_user_events(slice.sent_before));
                    assert(handed_over(run.calls) + as_user_events(run.channel.pending) == (
                    handed_over(before.calls) + as_user_events(before.channel.pending))
                        + as_user_events(slice.sent_before));
                },
                DriveView::Pump(_) => {
                    let got = received(arrived, slice.traffic);
                    let more = crate::channel::sent(slice.traffic);
                    crate::channel::law_first_in_first_out(arrived, slice.traffic);
                    crate::channel::law_channel_stays_open(arrived, slice.traffic);
                    lemma_user_calls::<T, N>(arrived, slice.traffic);
                    assert(handed_over(run.calls) == handed_over(before.calls) + as_user_events(
                        got,
                    ));
                    assert(as_user_events::<T, N>(got) + as_user_events(run.channel.pending)
                        == as_user_events::<T, N>(got + run.channel.pending));
                    assert(as_user_events::<T, N>(arrived.pending + more) == as_user_events::<T, N>(
                        arrived.pending,
                    ) + as_user_events(more));
                    assert(as_user_events::<T, N>(channel.pending + run.sent) == (as_user_events::<
                        T,
                        N,
                    >(base) + as_user_events(slice.sent_before)) + as_user_events(more));
                    assert(handed_over(run.calls) + as_user_events(run.channel.pending)
                        == handed_over(before.calls) + (as_user_events(got) + as_user_events(
                        run.channel.pending,
                    )));
                    assert(handed_over(before.calls) + ((as_user_events(before.channel.pending)
                        + as_user_events(slice.sent_before)) + as_user_events(more)) == ((
                    handed_over(before.calls) + as_user_events(before.channel.pending))
                        + as_user_events(slice.sent_before)) + as_user_events(more));
                },
            }
        }
    }
}

proof fn lemma_after_sends<T>(channel: ChannelState<T>, events: Seq<T>)
    requires
        channel.open,
    ensures
        after_ops(channel, sends(events)).open,
        after_ops(channel, sends(events)).id == channel.id,
        after_ops(channel, sends(events)).pending == channel.pending + events,
    decreases events.len(),
{
    if events.len() > 0 {
        lemma_after_sends(channel, events.drop_last());
        assert(sends(events).drop_last() == sends(events.drop_last()));
        assert((channel.pending + events.drop_last()).push(events.last()) == channel.pending
            + events);
    } else {
        assert(channel.pending + events == channel.pending);
    }
}

} // verus!
