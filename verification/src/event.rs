//! The events that an event loop hands to its user.

use vstd::pervasive::unreached;
use vstd::prelude::*;

verus! {

/// A type without values.
#[derive(Debug)]
pub struct Void {
    sealed: (),
}

impl Void {
    #[verifier::type_invariant]
    spec fn has_no_values(self) -> bool {
        false
    }
}

/// The user event type of an event that is never a user event.
#[derive(Debug)]
pub enum Never {
    /// Cannot be made: its field has no values.
    Absurd(Void),
}

/// An event: one that the user sent, or one of the platform, which the event loop only passes on.
#[derive(Debug, PartialEq, Eq)]
pub enum Event<T, N> {
    /// An event that the user sent through a proxy.
    UserEvent(T),
    /// Any other event.
    NonUser(N),
}

impl<T, N> Event<T, N> {
    /// This event with another user event type, or the event itself if it is a user event.
    pub fn map_nonuser_event<U>(self) -> (mapped: Result<Event<U, N>, Event<T, N>>)
        ensures
            self matches Event::NonUser(n) ==> mapped == Ok::<Event<U, N>, Event<T, N>>(
                Event::NonUser(n),
            ),
            self is UserEvent ==> mapped == Err::<Event<U, N>, Event<T, N>>(self),
    {
        match self {
            Event::UserEvent(event) => Err(Event::UserEvent(event)),
            Event::NonUser(event) => Ok(Event::NonUser(event)),
        }
    }
}

impl<N> Event<Never, N> {
    /// This event, which cannot be a user event, with another user event type.
    pub fn into_nonuser_event<U>(self) -> (event: Event<U, N>)
        ensures
            self matches Event::NonUser(n) && event == Event::<U, N>::NonUser(n),
    {
        match self.map_nonuser_event() {
            Ok(event) => event,
            Err(Event::UserEvent(Never::Absurd(void))) => {
                proof {
                    use_type_invariant(&void);
                }
                unreached()
            },
            Err(Event::NonUser(_)) => unreached(),
        }
    }
}

} // verus!
