//! The queue that carries user events from the proxies to the event loop.

use std::collections::VecDeque;
use vstd::prelude::*;

verus! {

/// What a channel holds.
#[verifier::ext_equal]
pub struct ChannelState<T> {
    /// The number by which its ends name the channel.
    pub id: u64,
    /// The events that were sent and not yet received, in the order in which they were sent.
    pub pending: Seq<T>,
    /// Whether there is still a receiver.
    pub open: bool,
}

impl<T> ChannelState<T> {
    /// The channel after `event` is sent into it.
    pub open spec fn after_send(self, event: T) -> ChannelState<T> {
        if self.open {
            ChannelState { pending: self.pending.push(event), ..self }
        } else {
            self
        }
    }

    /// What the receiver gets next.
    pub open spec fn next(self) -> Option<T> {
        if self.pending.len() > 0 {
            Some(self.pending.first())
        } else {
            None
        }
    }

    /// The channel after the receiver has taken what it gets next.
    pub open spec fn after_recv(self) -> ChannelState<T> {
        if self.pending.len() > 0 {
            ChannelState { pending: self.pending.drop_first(), ..self }
        } else {
            self
        }
    }

    /// The channel after its receiver is gone.
    pub open spec fn after_drop_receiver(self) -> ChannelState<T> {
        ChannelState { pending: seq![], open: false, ..self }
    }
}

/// A first-in first-out queue of user events, with any number of senders and one receiver.
///
/// The ends of a channel name it by its number, and work on the channel that they name.
#[derive(Debug)]
pub struct Channel<T> {
    id: u64,
    /// The events that were sent and not yet received, for as long as there is a receiver.
    queue: Option<VecDeque<T>>,
}

impl<T> View for Channel<T> {
    type V = ChannelState<T>;

    closed spec fn view(&self) -> ChannelState<T> {
        match self.queue {
            Some(queue) => ChannelState { id: self.id, pending: queue@, open: true },
            None => ChannelState { id: self.id, pending: seq![], open: false },
        }
    }
}

impl<T> Channel<T> {
    /// The number by which the ends of this channel name it.
    pub fn id(&self) -> (id: u64)
        ensures
            id == self@.id,
    {
        self.id
    }
}

/// A sending end of a channel. There can be any number of them.
#[derive(Clone, Copy, Debug, PartialEq, Eq, Structural)]
pub struct Sender {
    /// The number of the channel that it sends into.
    pub channel: u64,
}

impl Sender {
    /// Sends `event`, or hands it back if the receiver is gone.
    pub fn send<T>(&self, channel: &mut Channel<T>, event: T) -> (sent: Result<(), T>)
        requires
            self.channel == old(channel)@.id,
        ensures
            final(channel)@ == old(channel)@.after_send(event),
            final(channel)@.id == old(channel)@.id,
            final(channel)@.open == old(channel)@.open,
            final(channel)@.pending == if old(channel)@.open {
                old(channel)@.pending.push(event)
            } else {
                old(channel)@.pending
            },
            sent == if old(channel)@.open {
                Ok::<(), T>(())
            } else {
                Err::<(), T>(event)
            },
    {
        match &mut channel.queue {
            Some(queue) => {
                queue.push_back(event);
                Ok(())
            },
            None => Err(event),
        }
    }
}

/// The receiving end of a channel. There is one, and with it the channel is closed.
///
/// Its view is the number of the channel that it receives from.
#[derive(Debug)]
pub struct Receiver {
    channel: u64,
}

impl View for Receiver {
    type V = u64;

    closed spec fn view(&self) -> u64 {
        self.channel
    }
}

impl Receiver {
    /// A reference to this receiver, through which events can be received.
    pub fn borrow(&self) -> (receiver: ReceiverRef)
        ensures
            receiver.channel == self@,
    {
        ReceiverRef { channel: self.channel }
    }

    /// Removes the receiver, and with it the events that were not yet received. Returns them, for
    /// the caller to drop.
    pub fn disconnect<T>(self, channel: &mut Channel<T>) -> (lost: VecDeque<T>)
        requires
            self@ == old(channel)@.id,
        ensures
            final(channel)@ == old(channel)@.after_drop_receiver(),
            final(channel)@.id == old(channel)@.id,
            !final(channel)@.open,
            final(channel)@.pending.len() == 0,
            lost@ == old(channel)@.pending,
    {
        match channel.queue.take() {
            Some(queue) => queue,
            None => VecDeque::new(),
        }
    }
}

/// A reference to the receiving end of a channel.
#[derive(Clone, Copy, Debug, PartialEq, Eq, Structural)]
pub struct ReceiverRef {
    /// The number of the channel that it receives from.
    pub channel: u64,
}

impl ReceiverRef {
    /// Takes the event that was sent first of those not yet received.
    pub fn try_recv<T>(&self, channel: &mut Channel<T>) -> (event: Option<T>)
        requires
            self.channel == old(channel)@.id,
        ensures
            final(channel)@ == old(channel)@.after_recv(),
            event == old(channel)@.next(),
            final(channel)@.id == old(channel)@.id,
            final(channel)@.open == old(channel)@.open,
            event is None <==> old(channel)@.pending.len() == 0,
            event is None ==> final(channel)@.pending == old(channel)@.pending,
            event matches Some(first) ==> seq![first] + final(channel)@.pending
                == old(channel)@.pending,
            !old(channel)@.open ==> event is None,
    {
        match &mut channel.queue {
            Some(queue) => queue.pop_front(),
            None => None,
        }
    }
}

/// An empty channel with its two ends. `id` is a number that no other channel has.
pub(crate) fn channel<T>(id: u64) -> (made: (Channel<T>, Sender, Receiver))
    ensures
        made.0@ == (ChannelState { id, pending: Seq::<T>::empty(), open: true }),
        made.1.channel == id,
        made.2@ == id,
{
    let channel = Channel { id, queue: Some(VecDeque::new()) };
    (channel, Sender { channel: id }, Receiver { channel: id })
}

/// What can be done to a channel.
pub enum ChannelOp<T> {
    /// A proxy sends an event.
    Send(T),
    /// The receiver asks for an event.
    Recv,
}

/// The channel after the operations `ops`, one after another.
pub open spec fn after_ops<T>(start: ChannelState<T>, ops: Seq<ChannelOp<T>>) -> ChannelState<T>
    decreases ops.len(),
{
    if ops.len() == 0 {
        start
    } else {
        let before = after_ops(start, ops.drop_last());
        match ops.last() {
            ChannelOp::Send(event) => before.after_send(event),
            ChannelOp::Recv => before.after_recv(),
        }
    }
}

/// The events that `ops` send, in order.
pub open spec fn sent<T>(ops: Seq<ChannelOp<T>>) -> Seq<T>
    decreases ops.len(),
{
    if ops.len() == 0 {
        seq![]
    } else {
        let before = sent(ops.drop_last());
        match ops.last() {
            ChannelOp::Send(event) => before.push(event),
            ChannelOp::Recv => before,
        }
    }
}

/// The events that the receiver gets in the course of `ops`, in order.
pub open spec fn received<T>(start: ChannelState<T>, ops: Seq<ChannelOp<T>>) -> Seq<T>
    decreases ops.len(),
{
    if ops.len() == 0 {
        seq![]
    } else {
        let before = received(start, ops.drop_last());
        match ops.last() {
            ChannelOp::Send(_) => before,
            ChannelOp::Recv => match after_ops(start, ops.drop_last()).next() {
                Some(event) => before.push(event),
                None => before,
            },
        }
    }
}

/// What one send does: the event joins the end of what is pending if there is a receiver, and
/// otherwise nothing changes. The channel keeps its number and its receiver.
pub proof fn law_send_appends<T>(state: ChannelState<T>, event: T)
    ensures
        state.after_send(event).id == state.id,
        state.after_send(event).open == state.open,
        state.open ==> state.after_send(event).pending == state.pending + seq![event],
        !state.open ==> state.after_send(event) == state,
{
    assert(state.pending.push(event) == state.pending + seq![event]);
}

/// What one receive does: it takes away exactly the event that it gets, which is the first of those
/// pending, and gets nothing exactly if none is. The channel keeps its number and its receiver.
pub proof fn law_receive_takes_first<T>(state: ChannelState<T>)
    ensures
        state.after_recv().id == state.id,
        state.after_recv().open == state.open,
        state.next() is None <==> state.pending.len() == 0,
        state.next() is None ==> state.after_recv() == state,
        state.next() matches Some(event) ==> seq![event] + state.after_recv().pending
            == state.pending,
{
    if state.pending.len() > 0 {
        assert(seq![state.pending.first()] + state.pending.drop_first() == state.pending);
    }
}

/// Closing keeps the number of the channel: a sender names the channel after the receiver is gone
/// exactly if it named it before. From then on, whatever else happens to the channel, it is the one
/// that the sender names and it is closed, so that a send hands its event back and changes nothing.
pub proof fn law_closing_keeps_the_channel<T>(
    start: ChannelState<T>,
    sender: Sender,
    ops: Seq<ChannelOp<T>>,
    event: T,
)
    ensures
        ({
            let closed = after_ops(start.after_drop_receiver(), ops);
            &&& closed.id == start.id
            &&& sender.channel == closed.id <==> sender.channel == start.id
            &&& !closed.open
            &&& closed.pending.len() == 0
            &&& closed.after_send(event) == closed
        }),
{
    law_closed_channel_stays_empty(start, ops);
}

/// A channel stays open for as long as its receiver is there: neither sending nor receiving closes
/// it, and only the receiver itself can be disconnected.
pub proof fn law_channel_stays_open<T>(start: ChannelState<T>, ops: Seq<ChannelOp<T>>)
    requires
        start.open,
    ensures
        after_ops(start, ops).open,
        after_ops(start, ops).id == start.id,
    decreases ops.len(),
{
    if ops.len() > 0 {
        law_channel_stays_open(start, ops.drop_last());
    }
}

/// However sends and receives alternate, no event is lost, repeated or overtaken while there is a
/// receiver: what was received, followed by what is still pending, is what was pending at the
/// start, followed by what was sent.
pub proof fn law_first_in_first_out<T>(start: ChannelState<T>, ops: Seq<ChannelOp<T>>)
    requires
        start.open,
    ensures
        after_ops(start, ops).open,
        received(start, ops) + after_ops(start, ops).pending == start.pending + sent(ops),
    decreases ops.len(),
{
    if ops.len() > 0 {
        law_first_in_first_out(start, ops.drop_last());
        let got = received(start, ops.drop_last());
        let left = after_ops(start, ops.drop_last());
        match ops.last() {
            ChannelOp::Send(event) => {
                assert(got + left.pending.push(event) == (got + left.pending).push(event));
                assert((start.pending + sent(ops.drop_last())).push(event) == start.pending
                    + sent(ops));
            },
            ChannelOp::Recv => {
                if left.pending.len() > 0 {
                    assert(got.push(left.pending.first()) + left.pending.drop_first() == got
                        + left.pending);
                }
            },
        }
    } else {
        assert(received(start, ops) + start.pending == start.pending + sent(ops));
    }
}

/// A receiver that has just got nothing has got everything: all that was pending at the start, then
/// all that was sent, in order.
pub proof fn law_drained_receiver_has_all<T>(start: ChannelState<T>, ops: Seq<ChannelOp<T>>)
    requires
        start.open,
        after_ops(start, ops).next() is None,
    ensures
        received(start, ops) == start.pending + sent(ops),
{
    law_first_in_first_out(start, ops);
    assert(received(start, ops) + after_ops(start, ops).pending == received(start, ops));
}

/// The receiver gets all that is pending, in order, by asking once for each event, and then gets
/// nothing.
pub proof fn law_receiving_drains<T>(start: ChannelState<T>)
    ensures
        received(start, Seq::new(start.pending.len(), |i: int| ChannelOp::<T>::Recv))
            == start.pending,
        after_ops(start, Seq::new(start.pending.len(), |i: int| ChannelOp::<T>::Recv)).next()
            is None,
{
    lemma_receive(start, start.pending.len());
    assert(start.pending.take(start.pending.len() as int) == start.pending);
}

proof fn lemma_receive<T>(start: ChannelState<T>, n: nat)
    requires
        n <= start.pending.len(),
    ensures
        received(start, Seq::new(n, |i: int| ChannelOp::<T>::Recv)) == start.pending.take(n as int),
        after_ops(start, Seq::new(n, |i: int| ChannelOp::<T>::Recv)).pending == start.pending.skip(
            n as int,
        ),
    decreases n,
{
    let ops = Seq::new(n, |i: int| ChannelOp::<T>::Recv);
    if n > 0 {
        let m = (n - 1) as nat;
        lemma_receive(start, m);
        assert(ops.drop_last() == Seq::new(m, |i: int| ChannelOp::<T>::Recv));
        assert(start.pending.take(m as int).push(start.pending[m as int]) == start.pending.take(
            n as int,
        ));
        assert(start.pending.skip(m as int).drop_first() == start.pending.skip(n as int));
    } else {
        assert(start.pending.take(0) == Seq::<T>::empty());
        assert(start.pending.skip(0) == start.pending);
    }
}

/// Once the receiver is gone it stays gone: whatever is sent, nothing is ever pending or received.
pub proof fn law_closed_channel_stays_empty<T>(start: ChannelState<T>, ops: Seq<ChannelOp<T>>)
    ensures
        after_ops(start.after_drop_receiver(), ops) == start.after_drop_receiver(),
        received(start.after_drop_receiver(), ops) == Seq::<T>::empty(),
    decreases ops.len(),
{
    if ops.len() > 0 {
        law_closed_channel_stays_empty(start, ops.drop_last());
    }
}

} // verus!
