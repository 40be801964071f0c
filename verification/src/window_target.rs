//! The handle through which event callbacks reach the event loop.

use crate::app_state::AppState;
use crate::control_flow::ControlFlow;
use raw_window_handle::{HandleError, RawDisplayHandle, UiKitDisplayHandle};
use std::marker::PhantomData;
use vstd::prelude::*;

verus! {

/// Which device events a window wants.
#[derive(Clone, Copy, Debug, PartialEq, Eq, Structural)]
pub enum DeviceEvents {
    /// All of them.
    Always,
    /// Those that come while the window has the focus.
    WhenFocused,
    /// None.
    Never,
}

/// The handle that each event callback gets.
#[derive(Debug)]
pub struct EventLoopWindowTarget<T> {
    /// Stands for the events that the user sends.
    pub p: PhantomData<T>,
}

impl<T> EventLoopWindowTarget<T> {
    /// Does nothing: there are no device events to choose from.
    pub fn listen_device_events<H>(&self, state: &mut AppState<H>, _allowed: DeviceEvents)
        ensures
            *final(state) == *old(state),
    {
    }

    /// The handle of the display: the one of UIKit, which holds nothing.
    pub fn raw_display_handle_rwh_06(&self) -> (handle: Result<RawDisplayHandle, HandleError>)
        ensures
            handle matches Ok(RawDisplayHandle::UiKit(_)),
    {
        Ok(RawDisplayHandle::UiKit(UiKitDisplayHandle::new()))
    }

    /// Sets the control flow.
    pub fn set_control_flow<H>(&self, state: &mut AppState<H>, control_flow: ControlFlow)
        ensures
            *final(state) == (AppState { control_flow, ..*old(state) }),
    {
        state.set_control_flow(control_flow)
    }

    /// The control flow that was set last.
    pub fn control_flow<H>(&self, state: &AppState<H>) -> (control_flow: ControlFlow)
        ensures
            control_flow == state.control_flow,
    {
        state.control_flow()
    }

    /// Requests that the driver returns to its caller.
    ///
    /// The process cannot be ended this way: the platform has no means for that.
    pub fn exit<H>(&self, state: &mut AppState<H>)
        ensures
            *final(state) == (AppState { exit_requested: true, ..*old(state) }),
    {
        state.request_exit();
    }

    /// Whether it is requested that the driver returns to its caller.
    pub fn exiting<H>(&self, state: &AppState<H>) -> (requested: bool)
        ensures
            requested == state.exit_requested,
    {
        state.exit_requested()
    }

    /// Withdraws the request that the driver returns to its caller.
    pub fn clear_exit<H>(&self, state: &mut AppState<H>)
        ensures
            *final(state) == (AppState { exit_requested: false, ..*old(state) }),
    {
        state.clear_exit()
    }
}

} // verus!
