//! The part of the application state that the drivers of an event loop share with its callbacks.

use crate::control_flow::ControlFlow;
use vstd::prelude::*;

verus! {

/// The state that event callbacks and drivers both work on. `H` is the type of event handlers.
#[derive(Debug)]
pub struct AppState<H> {
    /// What to do once all events are handled.
    pub control_flow: ControlFlow,
    /// Whether a callback has requested that the driver returns.
    pub exit_requested: bool,
    /// The handler that events are dispatched to.
    pub handler: Option<H>,
}

impl<H> AppState<H> {
    /// A state without a handler, in which no exit is requested.
    pub fn new(control_flow: ControlFlow) -> (state: AppState<H>)
        ensures
            state == (AppState { control_flow, exit_requested: false, handler: None::<H> }),
    {
        AppState { control_flow, exit_requested: false, handler: None }
    }

    /// Sets the control flow.
    pub fn set_control_flow(&mut self, control_flow: ControlFlow)
        ensures
            *final(self) == (AppState { control_flow, ..*old(self) }),
    {
        self.control_flow = control_flow;
    }

    /// The control flow that was set last.
    pub fn control_flow(&self) -> (control_flow: ControlFlow)
        ensures
            control_flow == self.control_flow,
    {
        self.control_flow
    }

    /// Requests that the driver returns.
    pub fn request_exit(&mut self)
        ensures
            *final(self) == (AppState { exit_requested: true, ..*old(self) }),
    {
        self.exit_requested = true;
    }

    /// Whether it is requested that the driver returns.
    pub fn exit_requested(&self) -> (requested: bool)
        ensures
            requested == self.exit_requested,
    {
        self.exit_requested
    }

    /// Withdraws the request that the driver returns.
    pub fn clear_exit(&mut self)
        ensures
            *final(self) == (AppState { exit_requested: false, ..*old(self) }),
    {
        self.exit_requested = false;
    }

    /// Makes `handler` the one that events are dispatched to, for the whole life of an application
    /// that is about to be started.
    pub fn will_launch(&mut self, handler: H)
        ensures
            *final(self) == (AppState { handler: Some(handler), ..*old(self) }),
    {
        self.install_handler(handler);
    }

    /// Makes `handler` the one that events are dispatched to.
    pub fn install_handler(&mut self, handler: H)
        ensures
            *final(self) == (AppState { handler: Some(handler), ..*old(self) }),
    {
        self.handler = Some(handler);
    }

    /// Takes out the handler that events were dispatched to.
    pub fn take_handler(&mut self) -> (handler: Option<H>)
        ensures
            handler == old(self).handler,
            *final(self) == (AppState { handler: None::<H>, ..*old(self) }),
    {
        self.handler.take()
    }
}

/// What an event callback can do to the application state.
pub enum CallbackOp {
    /// Sets the control flow.
    SetControlFlow(ControlFlow),
    /// Requests an exit.
    Exit,
    /// Withdraws the request for an exit.
    ClearExit,
}

impl<H> AppState<H> {
    /// The state after the callbacks have done `ops`, one after another.
    pub open spec fn after_callbacks(self, ops: Seq<CallbackOp>) -> AppState<H>
        decreases ops.len(),
    {
        if ops.len() == 0 {
            self
        } else {
            let before = self.after_callbacks(ops.drop_last());
            match ops.last() {
                CallbackOp::SetControlFlow(control_flow) => AppState { control_flow, ..before },
                CallbackOp::Exit => AppState { exit_requested: true, ..before },
                CallbackOp::ClearExit => AppState { exit_requested: false, ..before },
            }
        }
    }
}

/// Callbacks neither install nor remove the handler.
pub proof fn law_callbacks_keep_handler<H>(state: AppState<H>, ops: Seq<CallbackOp>)
    ensures
        state.after_callbacks(ops).handler == state.handler,
    decreases ops.len(),
{
    if ops.len() > 0 {
        law_callbacks_keep_handler(state, ops.drop_last());
    }
}

/// A requested exit stays requested for as long as no callback withdraws it, whatever the callbacks
/// do besides.
pub proof fn law_exit_stays_requested<H>(state: AppState<H>, ops: Seq<CallbackOp>, exit: int)
    requires
        0 <= exit < ops.len(),
        ops[exit] is Exit,
        forall|i: int| exit < i < ops.len() ==> !(#[trigger] ops[i] is ClearExit),
    ensures
        state.after_callbacks(ops).exit_requested,
    decreases ops.len(),
{
    if exit < ops.len() - 1 {
        law_exit_stays_requested(state, ops.drop_last(), exit);
        assert(!(ops[ops.len() - 1] is ClearExit));
    }
}

/// Without a request there is no exit: callbacks that never request one leave none requested.
pub proof fn law_no_exit_unrequested<H>(state: AppState<H>, ops: Seq<CallbackOp>)
    requires
        !state.exit_requested,
        forall|i: int| 0 <= i < ops.len() ==> !(#[trigger] ops[i] is Exit),
    ensures
        !state.after_callbacks(ops).exit_requested,
    decreases ops.len(),
{
    if ops.len() > 0 {
        law_no_exit_unrequested(state, ops.drop_last());
        assert(!(ops[ops.len() - 1] is Exit));
    }
}

/// A request that stands before the callbacks run still stands afterwards, unless one of them
/// withdraws it.
pub proof fn law_request_persists<H>(state: AppState<H>, ops: Seq<CallbackOp>)
    requires
        state.exit_requested,
        forall|i: int| 0 <= i < ops.len() ==> !(#[trigger] ops[i] is ClearExit),
    ensures
        state.after_callbacks(ops).exit_requested,
    decreases ops.len(),
{
    if ops.len() > 0 {
        law_request_persists(state, ops.drop_last());
        assert(!(ops[ops.len() - 1] is ClearExit));
    }
}

/// Whether `op` requests an exit or withdraws the request.
pub open spec fn decides_exit(op: CallbackOp) -> bool {
    op is Exit || op is ClearExit
}

/// An exit is requested exactly if the last that was done about it, at `last`, was to request one.
pub proof fn law_last_decides_exit<H>(state: AppState<H>, ops: Seq<CallbackOp>, last: int)
    requires
        0 <= last < ops.len(),
        decides_exit(ops[last]),
        forall|i: int| last < i < ops.len() ==> !decides_exit(#[trigger] ops[i]),
    ensures
        state.after_callbacks(ops).exit_requested <==> ops[last] is Exit,
    decreases ops.len(),
{
    if last < ops.len() - 1 {
        law_last_decides_exit(state, ops.drop_last(), last);
        assert(!decides_exit(ops[ops.len() - 1]));
    }
}

/// Callbacks that do nothing about an exit leave the request as it was.
pub proof fn law_exit_untouched<H>(state: AppState<H>, ops: Seq<CallbackOp>)
    requires
        forall|i: int| 0 <= i < ops.len() ==> !decides_exit(#[trigger] ops[i]),
    ensures
        state.after_callbacks(ops).exit_requested == state.exit_requested,
    decreases ops.len(),
{
    if ops.len() > 0 {
        law_exit_untouched(state, ops.drop_last());
        assert(!decides_exit(ops[ops.len() - 1]));
    }
}

/// The control flow is the one that was set last, at `last`, whatever is done about an exit.
pub proof fn law_last_sets_control_flow<H>(state: AppState<H>, ops: Seq<CallbackOp>, last: int)
    requires
        0 <= last < ops.len(),
        ops[last] is SetControlFlow,
        forall|i: int| last < i < ops.len() ==> !(#[trigger] ops[i] is SetControlFlow),
    ensures
        ops[last] == CallbackOp::SetControlFlow(state.after_callbacks(ops).control_flow),
    decreases ops.len(),
{
    if last < ops.len() - 1 {
        law_last_sets_control_flow(state, ops.drop_last(), last);
        assert(!(ops[ops.len() - 1] is SetControlFlow));
    }
}

/// Callbacks that set no control flow leave the one that was set before.
pub proof fn law_control_flow_untouched<H>(state: AppState<H>, ops: Seq<CallbackOp>)
    requires
        forall|i: int| 0 <= i < ops.len() ==> !(#[trigger] ops[i] is SetControlFlow),
    ensures
        state.after_callbacks(ops).control_flow == state.control_flow,
    decreases ops.len(),
{
    if ops.len() > 0 {
        law_control_flow_untouched(state, ops.drop_last());
        assert(!(ops[ops.len() - 1] is SetControlFlow));
    }
}

} // verus!
