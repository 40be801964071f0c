//! Spans of time and points in time, counted in whole nanoseconds.

use vstd::prelude::*;

verus! {

/// Nanoseconds in one second.
pub const NANOS_PER_SEC: u32 = 1_000_000_000;

/// A span of time: whole seconds and the nanoseconds of a last, incomplete second.
///
/// Its view is its length in nanoseconds.
#[derive(Clone, Copy, Debug, PartialEq, Eq)]
pub struct Duration {
    secs: u64,
    nanos: u32,
}

impl View for Duration {
    type V = nat;

    closed spec fn view(&self) -> nat {
        self.secs as nat * NANOS_PER_SEC as nat + self.nanos as nat
    }
}

impl Duration {
    #[verifier::type_invariant]
    spec fn normalized(self) -> bool {
        self.nanos < NANOS_PER_SEC
    }

    /// The span of `secs` seconds and `nanos` nanoseconds.
    pub fn new(secs: u64, nanos: u32) -> (span: Duration)
        requires
            nanos < NANOS_PER_SEC,
        ensures
            span@ == secs as nat * NANOS_PER_SEC as nat + nanos as nat,
    {
        Duration { secs, nanos }
    }

    /// The span of `secs` whole seconds.
    pub fn from_secs(secs: u64) -> (span: Duration)
        ensures
            span@ == secs as nat * NANOS_PER_SEC as nat,
    {
        Duration::new(secs, 0)
    }

    /// The empty span.
    pub fn zero() -> (span: Duration)
        ensures
            span@ == 0,
    {
        Duration::new(0, 0)
    }

    /// The whole seconds of this span.
    pub fn as_secs(&self) -> (secs: u64)
        ensures
            secs as nat == self@ / NANOS_PER_SEC as nat,
    {
        proof {
            use_type_invariant(self);
        }
        self.secs
    }

    /// The nanoseconds of this span that make up no whole second.
    pub fn subsec_nanos(&self) -> (nanos: u32)
        ensures
            nanos as nat == self@ % NANOS_PER_SEC as nat,
    {
        proof {
            use_type_invariant(self);
        }
        self.nanos
    }
}

/// A point in time: the seconds and nanoseconds that have passed since an origin that all the
/// points of one program share.
///
/// Its view is its distance from the origin in nanoseconds.
#[derive(Clone, Copy, Debug, PartialEq, Eq)]
pub struct Instant {
    secs: u64,
    nanos: u32,
}

impl View for Instant {
    type V = nat;

    closed spec fn view(&self) -> nat {
        self.secs as nat * NANOS_PER_SEC as nat + self.nanos as nat
    }
}

impl Instant {
    #[verifier::type_invariant]
    spec fn normalized(self) -> bool {
        self.nanos < NANOS_PER_SEC
    }

    /// The point `secs` seconds and `nanos` nanoseconds after the origin.
    pub fn new(secs: u64, nanos: u32) -> (at: Instant)
        requires
            nanos < NANOS_PER_SEC,
        ensures
            at@ == secs as nat * NANOS_PER_SEC as nat + nanos as nat,
    {
        Instant { secs, nanos }
    }

    /// The span from `earlier` to this point, or the empty span if `earlier` is the later one.
    pub fn saturating_duration_since(&self, earlier: Instant) -> (span: Duration)
        ensures
            span@ == span_since(self@, earlier@),
            self@ >= earlier@ ==> earlier@ + span@ == self@,
            self@ <= earlier@ ==> span@ == 0,
    {
        proof {
            use_type_invariant(self);
            use_type_invariant(&earlier);
        }
        if self.secs < earlier.secs || (self.secs == earlier.secs && self.nanos < earlier.nanos) {
            Duration::zero()
        } else if self.nanos < earlier.nanos {
            Duration::new(
                self.secs - earlier.secs - 1,
                NANOS_PER_SEC - earlier.nanos + self.nanos,
            )
        } else {
            Duration::new(self.secs - earlier.secs, self.nanos - earlier.nanos)
        }
    }
}

/// The nanoseconds from `earlier` to `later`, or none if they are in the other order.
pub open spec fn span_since(later: nat, earlier: nat) -> nat {
    if later >= earlier {
        (later - earlier) as nat
    } else {
        0
    }
}

/// A span and the point where it begins make up the point where it ends. There is no span back in
/// time, and of the two spans between two points one at least is empty.
pub proof fn law_span_bridges(later: nat, earlier: nat)
    ensures
        later >= earlier ==> earlier + span_since(later, earlier) == later,
        later <= earlier ==> span_since(later, earlier) == 0,
        span_since(later, earlier) == 0 || span_since(earlier, later) == 0,
{
}

} // verus!
