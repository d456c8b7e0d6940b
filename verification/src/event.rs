//! Events: points in time that may not have happened yet.

use vstd::prelude::*;

verus! {

/// A point in time, measured in integer ticks, that may also represent
/// "has not occurred".
#[derive(Debug, Clone, Copy, PartialEq, Eq, Structural)]
pub enum Event {
    /// The event occurred at the given tick.
    Occurred(i32),
    /// The event never occurred.
    Never,
}

impl View for Event {
    type V = Option<int>;

    open spec fn view(&self) -> Option<int> {
        match *self {
            Event::Occurred(t) => Some(t as int),
            Event::Never => None,
        }
    }
}

/// The "OR" combination of two events: the later occurrence if both occurred,
/// the occurred one if only one did, `Never` only if both are `Never`.
pub open spec fn merge_spec(a: Event, b: Event) -> Event {
    match (a, b) {
        (Event::Occurred(x), Event::Occurred(y)) => Event::Occurred(if x >= y { x } else { y }),
        (Event::Occurred(x), Event::Never) => Event::Occurred(x),
        (Event::Never, Event::Occurred(y)) => Event::Occurred(y),
        (Event::Never, Event::Never) => Event::Never,
    }
}

/// `merge_spec`, stated over the optional-tick view of an event.
pub open spec fn merge_opt(a: Option<int>, b: Option<int>) -> Option<int> {
    match (a, b) {
        (Some(x), Some(y)) => Some(if x >= y { x } else { y }),
        (Some(x), None) => Some(x),
        (None, Some(y)) => Some(y),
        (None, None) => None,
    }
}

impl Event {
    /// An event that occurred at tick zero.
    pub fn zero() -> (r: Event)
        ensures
            r == Event::Occurred(0i32),
    {
        Event::Occurred(0)
    }

    /// An event that never occurred.
    pub fn never() -> (r: Event)
        ensures
            r == Event::Never,
    {
        Event::Never
    }

    /// Aggregates two candidate occurrences into the most recent one that
    /// happened, or `Never` if neither did.
    pub fn merge(self, other: Event) -> (r: Event)
        ensures
            r == merge_spec(self, other),
    {
        match (self, other) {
            (Event::Occurred(x), Event::Occurred(y)) => Event::Occurred(
                if x >= y {
                    x
                } else {
                    y
                },
            ),
            (Event::Occurred(x), Event::Never) => Event::Occurred(x),
            (Event::Never, Event::Occurred(y)) => Event::Occurred(y),
            (Event::Never, Event::Never) => Event::Never,
        }
    }
}

/// Merging is commutative.
pub proof fn lemma_merge_commutative(a: Event, b: Event)
    ensures
        merge_spec(a, b) == merge_spec(b, a),
{
}

/// Merging is associative.
pub proof fn lemma_merge_associative(a: Event, b: Event, c: Event)
    ensures
        merge_spec(a, merge_spec(b, c)) == merge_spec(merge_spec(a, b), c),
{
}

/// Merging is idempotent.
pub proof fn lemma_merge_idempotent(a: Event)
    ensures
        merge_spec(a, a) == a,
{
}

/// `Never` is the identity of merging, on either side.
pub proof fn lemma_merge_never_identity(a: Event)
    ensures
        merge_spec(a, Event::Never) == a,
        merge_spec(Event::Never, a) == a,
{
}

/// Merging commutes with the optional-tick view of events.
pub proof fn lemma_merge_view(a: Event, b: Event)
    ensures
        merge_spec(a, b)@ == merge_opt(a@, b@),
{
}

} // verus!
