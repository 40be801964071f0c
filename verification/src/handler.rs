//! The handlers that the application state dispatches events to.
//!
//! A handler decides what the user's callback is called with. It hands that out, and whoever holds
//! the callback makes the call.

use crate::channel::{Channel, Receiver, ReceiverRef};
#[allow(unused_imports)]
use crate::channel::{after_ops, received, sent, ChannelOp, ChannelState};
use crate::event::{Event, Never};
use crate::window_target::EventLoopWindowTarget;
use std::collections::VecDeque;
use std::marker::PhantomData;
use vstd::prelude::*;

verus! {

/// The call that hands the next user event of `receiver` to the callback, if there is one.
pub open spec fn next_user_call<T, N>(receiver: ChannelState<T>) -> Option<Event<T, N>> {
    match receiver.next() {
        Some(event) => Some(Event::UserEvent(event)),
        None => None,
    }
}

/// A handler of events.
pub trait EventHandler {
    /// The events that the user sends.
    type User;

    /// The events of the platform.
    type NonUser;

    /// The number of the channel that the user's events come from.
    spec fn receives_from(&self) -> u64;

    /// What the callback is to be called with for `event`, an event of the platform.
    fn handle_nonuser_event(&mut self, event: Event<Never, Self::NonUser>) -> (call: Event<
        Self::User,
        Self::NonUser,
    >)
        ensures
            event matches Event::NonUser(n) && call == Event::<Self::User, Self::NonUser>::NonUser(
                n,
            ),
            final(self).receives_from() == old(self).receives_from(),
    ;

    /// What the callback is to be called with next for a user event that waits in `channel`.
    ///
    /// All of them are handled once this returns `None`. Events that a callback sends in the
    /// meantime are handled too.
    fn handle_user_events(&mut self, channel: &mut Channel<Self::User>) -> (call: Option<
        Event<Self::User, Self::NonUser>,
    >)
        requires
            old(self).receives_from() == old(channel)@.id,
        ensures
            call == next_user_call::<Self::User, Self::NonUser>(old(channel)@),
            call is None <==> old(channel)@.pending.len() == 0,
            call matches Some(event) ==> event == Event::<Self::User, Self::NonUser>::UserEvent(
                old(channel)@.pending[0],
            ),
            final(channel)@ == old(channel)@.after_recv(),
            final(self).receives_from() == old(self).receives_from(),
    ;
}

/// The handler of an event loop that runs for good. It owns the receiving end of the channel.
pub struct EventLoopHandler<T, N> {
    /// The receiving end of the channel that the user's events come from.
    pub receiver: Receiver,
    /// The handle that the callback gets with each event.
    pub event_loop: EventLoopWindowTarget<T>,
    /// Stands for the events of the platform.
    pub marker: PhantomData<N>,
}

impl<T, N> EventLoopHandler<T, N> {
    /// A handler of the user events of `receiver`.
    pub fn new(receiver: Receiver, event_loop: EventLoopWindowTarget<T>) -> (handler:
        EventLoopHandler<T, N>)
        ensures
            handler.receiver == receiver,
            handler.event_loop == event_loop,
    {
        EventLoopHandler { receiver, event_loop, marker: PhantomData }
    }

    /// Ends this handler, and with it the channel that the user's events come from. Returns the
    /// events that were not yet received, for the caller to drop.
    pub fn close(self, channel: &mut Channel<T>) -> (lost: VecDeque<T>)
        requires
            self.receiver@ == old(channel)@.id,
        ensures
            final(channel)@ == old(channel)@.after_drop_receiver(),
            final(channel)@.id == old(channel)@.id,
            !final(channel)@.open,
            final(channel)@.pending.len() == 0,
            lost@ == old(channel)@.pending,
    {
        self.receiver.disconnect(channel)
    }
}

impl<T, N> EventHandler for EventLoopHandler<T, N> {
    type User = T;

    type NonUser = N;

    open spec fn receives_from(&self) -> u64 {
        self.receiver@
    }

    fn handle_nonuser_event(&mut self, event: Event<Never, N>) -> (call: Event<T, N>)
        ensures
            *final(self) == *old(self),
    {
        event.into_nonuser_event()
    }

    fn handle_user_events(&mut self, channel: &mut Channel<T>) -> (call: Option<Event<T, N>>)
        ensures
            *final(self) == *old(self),
    {
        match self.receiver.borrow().try_recv(channel) {
            Some(event) => Some(Event::UserEvent(event)),
            None => None,
        }
    }
}

/// The handler of an event loop whose driver returns. It refers to the receiving end of the channel,
/// which stays with the event loop.
pub struct DriverEventLoopHandler<T, N> {
    /// The receiving end of the channel that the user's events come from.
    pub receiver: ReceiverRef,
    /// The handle that the callback gets with each event.
    pub event_loop: EventLoopWindowTarget<T>,
    /// Stands for the events of the platform.
    pub marker: PhantomData<N>,
}

impl<T, N> DriverEventLoopHandler<T, N> {
    /// A handler of the user events of `receiver`.
    pub fn new(receiver: ReceiverRef, event_loop: EventLoopWindowTarget<T>) -> (handler:
        DriverEventLoopHandler<T, N>)
        ensures
            handler.receiver == receiver,
            handler.event_loop == event_loop,
    {
        DriverEventLoopHandler { receiver, event_loop, marker: PhantomData }
    }
}

impl<T, N> EventHandler for DriverEventLoopHandler<T, N> {
    type User = T;

    type NonUser = N;

    open spec fn receives_from(&self) -> u64 {
        self.receiver.channel
    }

    fn handle_nonuser_event(&mut self, event: Event<Never, N>) -> (call: Event<T, N>)
        ensures
            *final(self) == *old(self),
    {
        event.into_nonuser_event()
    }

    fn handle_user_events(&mut self, channel: &mut Channel<T>) -> (call: Option<Event<T, N>>)
        ensures
            *final(self) == *old(self),
    {
        match self.receiver.try_recv(channel) {
            Some(event) => Some(Event::UserEvent(event)),
            None => None,
        }
    }
}

/// What the callback is called with for user events in the course of `ops`, in which each receiving
/// operation is a call of `handle_user_events` and each sending one is made by some proxy.
pub open spec fn user_calls<T, N>(start: ChannelState<T>, ops: Seq<ChannelOp<T>>) -> Seq<
    Event<T, N>,
>
    decreases ops.len(),
{
    if ops.len() == 0 {
        seq![]
    } else {
        let before = user_calls(start, ops.drop_last());
        match ops.last() {
            ChannelOp::Send(_) => before,
            ChannelOp::Recv => match next_user_call(after_ops(start, ops.drop_last())) {
                Some(call) => before.push(call),
                None => before,
            },
        }
    }
}

/// The callback is called for a user event exactly if one is pending, and then with the first of
/// them, as it was sent.
pub proof fn law_first_pending_is_called<T, N>(receiver: ChannelState<T>)
    ensures
        next_user_call::<T, N>(receiver) is None <==> receiver.pending.len() == 0,
        next_user_call::<T, N>(receiver) matches Some(call) ==> call == Event::<T, N>::UserEvent(
            receiver.pending[0],
        ),
{
}

/// Every event that is sent through a proxy reaches the callback, once and in the order in which
/// the events were sent, by the time `handle_user_events` returns `None`, also if it is sent while
/// others are handled.
pub proof fn law_sent_events_reach_callback<T, N>(start: ChannelState<T>, ops: Seq<ChannelOp<T>>)
    requires
        start.open,
        next_user_call::<T, N>(after_ops(start, ops)) is None,
    ensures
        user_calls::<T, N>(start, ops) == (start.pending + sent(ops)).map_values(
            |event: T| Event::<T, N>::UserEvent(event),
        ),
{
    crate::channel::law_drained_receiver_has_all(start, ops);
    lemma_user_calls::<T, N>(start, ops);
}

pub(crate) proof fn lemma_user_calls<T, N>(start: ChannelState<T>, ops: Seq<ChannelOp<T>>)
    ensures
        user_calls::<T, N>(start, ops) == received(start, ops).map_values(
            |event: T| Event::<T, N>::UserEvent(event),
        ),
    decreases ops.len(),
{
    if ops.len() > 0 {
        lemma_user_calls::<T, N>(start, ops.drop_last());
    }
}

} // verus!
