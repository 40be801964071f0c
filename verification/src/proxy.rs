//! Proxies: senders of user events that wake the main run loop.

use crate::channel::{Channel, Sender};
#[allow(unused_imports)]
use crate::channel::{after_ops, ChannelOp, ChannelState};
use crate::run_loop::RunLoopMode;
use std::marker::PhantomData;
use vstd::prelude::*;

verus! {

/// A source of the main run loop that is to be created. It holds no data and does nothing when it
/// fires.
#[derive(Clone, Copy, Debug, PartialEq, Eq, Structural)]
pub struct NewSource {
    /// The version of its context.
    pub version: isize,
    /// Its place among the sources of the run loop: lower ones fire first.
    pub order: isize,
}

/// A call that a proxy makes on a source of the main run loop, or on the main run loop itself. `S` is
/// the type of sources.
#[derive(Debug, PartialEq, Eq)]
pub enum SourceCall<S> {
    /// Add the source to the main run loop in this mode.
    AddToMain { source: S, mode: RunLoopMode },
    /// Mark the source as ready to fire.
    Signal { source: S },
    /// Wake the main run loop up.
    WakeUpMain,
    /// Remove the source from all run loops for good.
    Invalidate { source: S },
    /// Give up ownership of the source.
    Release { source: S },
}

/// The error that there is no event loop any more to send an event to. It holds the event.
#[derive(Debug, PartialEq, Eq)]
pub struct EventLoopClosed<T>(pub T);

/// The place of a proxy's source among the sources of the run loop: behind all but those with the
/// last place of all.
pub open spec fn source_order() -> isize {
    (isize::MAX - 1) as isize
}

/// What a new proxy does with its source: it lets the run loop take notice.
pub open spec fn set_up_calls<S>(source: S) -> Seq<SourceCall<S>> {
    seq![
        SourceCall::AddToMain { source, mode: RunLoopMode::Common },
        SourceCall::WakeUpMain,
    ]
}

/// What a proxy does with its source to let the main thread know that there is a new event.
pub open spec fn notify_calls<S>(source: S) -> Seq<SourceCall<S>> {
    seq![SourceCall::Signal { source }, SourceCall::WakeUpMain]
}

/// What a proxy does with its source when it goes: it takes it out of use and gives it up.
pub open spec fn tear_down_calls<S>(source: S) -> Seq<SourceCall<S>> {
    seq![SourceCall::Invalidate { source }, SourceCall::Release { source }]
}

/// The source that is to be created for a proxy, ahead of the proxy itself.
pub fn source_to_create() -> (source: NewSource)
    ensures
        source.version == 0,
        source.order == source_order(),
{
    NewSource { version: 0, order: isize::MAX - 1 }
}

/// A sender of user events to an event loop, with a source of its own to wake it by.
pub struct EventLoopProxy<T, S> {
    /// The end of the channel that it sends through.
    pub sender: Sender,
    /// Its source of the main run loop.
    pub source: S,
    /// Stands for the events that the user sends.
    pub p: PhantomData<T>,
}

impl<T, S: Copy> EventLoopProxy<T, S> {
    /// A proxy that sends through `sender` and owns `source`, which was just created for it, and the
    /// calls that set the source up.
    pub fn new(sender: Sender, source: S) -> (made: (EventLoopProxy<T, S>, Vec<SourceCall<S>>))
        ensures
            made.0.sender == sender,
            made.0.source == source,
            made.1@ == set_up_calls(source),
            made.1@.len() == 2,
            made.1@[0] == (SourceCall::AddToMain { source, mode: RunLoopMode::Common }),
            made.1@[1] is WakeUpMain,
    {
        let calls = vec![
            SourceCall::AddToMain { source, mode: RunLoopMode::Common },
            SourceCall::WakeUpMain,
        ];
        (EventLoopProxy { sender, source, p: PhantomData }, calls)
    }

    /// Another proxy, which sends where this one sends and owns `source`, which was just created for
    /// it, and the calls that set the source up.
    pub fn duplicate(&self, source: S) -> (made: (EventLoopProxy<T, S>, Vec<SourceCall<S>>))
        requires
            source != self.source,
        ensures
            made.0.sender == self.sender,
            made.0.source == source,
            made.0.source != self.source,
            made.1@ == set_up_calls(source),
            made.1@.len() == 2,
            made.1@[0] == (SourceCall::AddToMain { source, mode: RunLoopMode::Common }),
            made.1@[1] is WakeUpMain,
    {
        EventLoopProxy::new(self.sender, source)
    }

    /// Sends `event` into `channel`, the one that this proxy's sender names. Returns the calls that
    /// let the main thread know, or the event if there is no receiver any more.
    pub fn send_event(&self, channel: &mut Channel<T>, event: T) -> (sent: Result<
        Vec<SourceCall<S>>,
        EventLoopClosed<T>,
    >)
        requires
            self.sender.channel == old(channel)@.id,
        ensures
            final(channel)@ == old(channel)@.after_send(event),
            final(channel)@.id == old(channel)@.id,
            final(channel)@.open == old(channel)@.open,
            sent is Ok <==> old(channel)@.open,
            sent matches Ok(calls) ==> calls@ == notify_calls(self.source),
            sent matches Ok(calls) ==> {
                &&& calls@.len() == 2
                &&& calls@[0] == (SourceCall::Signal { source: self.source })
                &&& calls@[1] is WakeUpMain
            },
            sent matches Err(closed) ==> closed == EventLoopClosed(event),
    {
        match self.sender.send(channel, event) {
            Ok(()) => Ok(
                vec![SourceCall::Signal { source: self.source }, SourceCall::WakeUpMain],
            ),
            Err(event) => Err(EventLoopClosed(event)),
        }
    }

    /// Ends this proxy, and returns the calls that take its source out of use.
    pub fn release(self) -> (calls: Vec<SourceCall<S>>)
        ensures
            calls@ == tear_down_calls(self.source),
            calls@.len() == 2,
            calls@[0] == (SourceCall::Invalidate { source: self.source }),
            calls@[1] == (SourceCall::Release { source: self.source }),
    {
        vec![
            SourceCall::Invalidate { source: self.source },
            SourceCall::Release { source: self.source },
        ]
    }
}

/// The calls of `sends` successful sends, one after another.
pub open spec fn notify_calls_repeated<S>(source: S, sends: nat) -> Seq<SourceCall<S>>
    decreases sends,
{
    if sends == 0 {
        seq![]
    } else {
        notify_calls_repeated(source, (sends - 1) as nat) + notify_calls(source)
    }
}

/// All the calls of a proxy with `source` that sends `sends` events before it goes.
pub open spec fn lifetime_calls<S>(source: S, sends: nat) -> Seq<SourceCall<S>> {
    set_up_calls(source) + notify_calls_repeated(source, sends) + tear_down_calls(source)
}

/// Whether `call` is made on `source`.
pub open spec fn is_made_on<S>(call: SourceCall<S>, source: S) -> bool {
    match call {
        SourceCall::AddToMain { source: on, .. } => on == source,
        SourceCall::Signal { source: on } => on == source,
        SourceCall::WakeUpMain => false,
        SourceCall::Invalidate { source: on } => on == source,
        SourceCall::Release { source: on } => on == source,
    }
}

/// Over its life a proxy adds its source to the run loop once, as its first call, invalidates it and
/// gives it up once each, as its last two calls, and signals it in between, once for each event. It
/// wakes the run loop right after the source was added and right after each signal, and at no other
/// time. The source is added in the common modes, and all these calls are made on the proxy's own
/// source.
pub proof fn law_source_lifetime<S>(source: S, sends: nat, i: int)
    requires
        0 <= i < lifetime_calls(source, sends).len(),
    ensures
        lifetime_calls(source, sends).len() == 4 + 2 * sends,
        lifetime_calls(source, sends)[i] is AddToMain <==> i == 0,
        lifetime_calls(source, sends)[i] is Invalidate <==> i == 2 + 2 * sends,
        lifetime_calls(source, sends)[i] is Release <==> i == 3 + 2 * sends,
        lifetime_calls(source, sends)[i] is Signal <==> 2 <= i < 2 + 2 * sends && i % 2 == 0,
        lifetime_calls(source, sends)[i] is WakeUpMain <==> i < 2 + 2 * sends && i % 2 == 1,
        lifetime_calls(source, sends)[i] is Signal ==> lifetime_calls(source, sends)[i
            + 1] is WakeUpMain,
        lifetime_calls(source, sends)[i] matches SourceCall::AddToMain { mode, .. } ==> mode
            == RunLoopMode::Common,
        is_made_on(lifetime_calls(source, sends)[i], source) || lifetime_calls(source, sends)[i]
            is WakeUpMain,
{
    lemma_notify_calls_repeated(source, sends);
    let middle = notify_calls_repeated(source, sends);
    if 2 <= i < 2 + middle.len() {
        assert(lifetime_calls(source, sends)[i] == middle[i - 2]);
        if middle[i - 2] is Signal {
            assert(lifetime_calls(source, sends)[i + 1] == middle[i - 1]);
        }
    }
}

proof fn lemma_notify_calls_repeated<S>(source: S, sends: nat)
    ensures
        notify_calls_repeated(source, sends).len() == 2 * sends,
        forall|i: int|
            0 <= i < 2 * sends ==> #[trigger] notify_calls_repeated(source, sends)[i]
                == notify_calls(source)[i % 2],
    decreases sends,
{
    if sends > 0 {
        lemma_notify_calls_repeated(source, (sends - 1) as nat);
    }
}

/// A proxy outlives its event loop: it still names the channel of an event loop that has ended,
/// whatever is done to the channel afterwards, and that channel has no receiver, so that each event
/// sent through the proxy comes back.
pub proof fn law_proxy_outlives_event_loop<T, S>(
    proxy: EventLoopProxy<T, S>,
    start: ChannelState<T>,
    ops: Seq<ChannelOp<T>>,
)
    requires
        proxy.sender.channel == start.id,
    ensures
        proxy.sender.channel == after_ops(start.after_drop_receiver(), ops).id,
        !after_ops(start.after_drop_receiver(), ops).open,
{
    crate::channel::law_closed_channel_stays_empty(start, ops);
}

/// A proxy's source comes after every other source but those with the last place of all.
pub proof fn law_source_order(other: isize)
    ensures
        other <= source_order() || other == isize::MAX,
        source_order() < isize::MAX,
{
}

/// What happens to the proxies of an event loop. A proxy is named by its source.
pub enum ProxyOp<S> {
    /// A proxy is made, by the event loop or from another proxy, with a source just created for it.
    Make { source: S },
    /// The proxy with this source sends an event, and there is a receiver.
    Send { source: S },
    /// The proxy with this source goes.
    Release { source: S },
}

impl<S> ProxyOp<S> {
    /// The source of the proxy that this happens to.
    pub open spec fn source(self) -> S {
        match self {
            ProxyOp::Make { source } => source,
            ProxyOp::Send { source } => source,
            ProxyOp::Release { source } => source,
        }
    }

    /// The calls that the proxy makes.
    pub open spec fn calls(self) -> Seq<SourceCall<S>> {
        match self {
            ProxyOp::Make { source } => set_up_calls(source),
            ProxyOp::Send { source } => notify_calls(source),
            ProxyOp::Release { source } => tear_down_calls(source),
        }
    }

    /// Whether this can happen while the proxies with the sources `live` are there: a source that
    /// was just created is none of theirs, and only a proxy that is there can send or go.
    pub open spec fn can_happen(self, live: Set<S>) -> bool {
        match self {
            ProxyOp::Make { source } => !live.contains(source),
            ProxyOp::Send { source } => live.contains(source),
            ProxyOp::Release { source } => live.contains(source),
        }
    }

    /// The sources of the proxies that are there afterwards.
    pub open spec fn live_after(self, live: Set<S>) -> Set<S> {
        match self {
            ProxyOp::Make { source } => live.insert(source),
            ProxyOp::Send { source } => live,
            ProxyOp::Release { source } => live.remove(source),
        }
    }
}

/// The sources of the proxies that are there after `ops`, one after another.
pub open spec fn live_after_ops<S>(live: Set<S>, ops: Seq<ProxyOp<S>>) -> Set<S>
    decreases ops.len(),
{
    if ops.len() == 0 {
        live
    } else {
        ops.last().live_after(live_after_ops(live, ops.drop_last()))
    }
}

/// Whether `ops` can happen one after another.
pub open spec fn can_happen_in_turn<S>(live: Set<S>, ops: Seq<ProxyOp<S>>) -> bool
    decreases ops.len(),
{
    ops.len() == 0 || {
        &&& can_happen_in_turn(live, ops.drop_last())
        &&& ops.last().can_happen(live_after_ops(live, ops.drop_last()))
    }
}

/// A proxy wakes the main run loop last, and after a call on its source, when it is made and
/// whenever it sends, and not when it goes: a source is then first out of use and given up after
/// that.
pub proof fn law_wakes_after_source<S>(op: ProxyOp<S>)
    ensures
        op.calls().len() == 2,
        is_made_on(op.calls()[0], op.source()),
        op.calls()[0] is AddToMain <==> op is Make,
        op.calls()[0] is Signal <==> op is Send,
        op.calls()[0] is Invalidate <==> op is Release,
        op.calls()[1] is WakeUpMain <==> !(op is Release),
        op.calls()[1] is Release <==> op is Release,
{
}

/// No proxy touches the source of another: whatever happens to one proxy, no call is made on the
/// source of any other, and the other is there afterwards exactly if it was there before.
pub proof fn law_only_own_source<S>(live: Set<S>, op: ProxyOp<S>, other: S, i: int)
    requires
        op.can_happen(live),
        other != op.source(),
        0 <= i < op.calls().len(),
    ensures
        !is_made_on(op.calls()[i], other),
        is_made_on(op.calls()[i], op.source()) || op.calls()[i] is WakeUpMain,
        op.live_after(live).contains(other) <==> live.contains(other),
{
}

/// The source of a proxy stays in use until the proxy itself goes: whatever happens to others in the
/// meantime, it is neither given up, nor given to another proxy.
pub proof fn law_source_stays_in_use<S>(live: Set<S>, ops: Seq<ProxyOp<S>>, source: S, k: int)
    requires
        live.contains(source),
        can_happen_in_turn(live, ops),
        forall|i: int| 0 <= i < ops.len() ==> #[trigger] ops[i] != (ProxyOp::Release { source }),
        0 <= k < ops.len(),
    ensures
        live_after_ops(live, ops).contains(source),
        ops[k] != (ProxyOp::Make { source }),
        forall|i: int|
            0 <= i < ops[k].calls().len() && is_made_on(#[trigger] ops[k].calls()[i], source)
                ==> ops[k].calls()[i] == (SourceCall::Signal { source }),
    decreases ops.len(),
{
    lemma_stays_live(live, ops, source);
    let before = ops.drop_last();
    assert(forall|i: int| 0 <= i < before.len() ==> before[i] == #[trigger] ops[i]);
    if k < before.len() {
        law_source_stays_in_use(live, before, source, k);
    } else {
        lemma_stays_live(live, before, source);
    }
}

proof fn lemma_stays_live<S>(live: Set<S>, ops: Seq<ProxyOp<S>>, source: S)
    requires
        live.contains(source),
        can_happen_in_turn(live, ops),
        forall|i: int| 0 <= i < ops.len() ==> #[trigger] ops[i] != (ProxyOp::Release { source }),
    ensures
        live_after_ops(live, ops).contains(source),
    decreases ops.len(),
{
    if ops.len() > 0 {
        lemma_stays_live(live, ops.drop_last(), source);
        assert(ops[ops.len() - 1] != (ProxyOp::Release { source }));
    }
}

} // verus!
