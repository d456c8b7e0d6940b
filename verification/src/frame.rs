//! Frames and inputs: the glue the host drives the engine with.

use vstd::prelude::*;
use crate::event::Event;
use crate::timebase::Timebase;
use crate::timebase::TimebaseMode;

verus! {

/// A factory bound to one evaluation instant; created fresh every tick and
/// discarded at tick end.
pub struct Frame {
    pub now: i32,
}

/// A caller-owned register holding one manually set event (for example a
/// button stamp): the only value with cross-tick lifetime. Its sole mutator
/// is `Frame::trigger`.
#[derive(Debug, Clone, Copy, PartialEq, Eq, Structural)]
pub struct Input {
    pub ev: Event,
}

impl Frame {
    /// A frame for the evaluation instant `now`.
    pub fn new(now: i32) -> (r: Frame)
        ensures
            r.now == now,
    {
        Frame { now }
    }

    /// A timebase bound to this frame's instant: a pure constructor with no
    /// side effects and no validation beyond the period invariant.
    pub fn timebase(&self, mode: TimebaseMode, period: i32, trigger: Event) -> (r: Timebase)
        requires
            0 < period,
        ensures
            r == (Timebase { now: self.now, mode, period, trigger }),
            r.wf(),
    {
        Timebase { now: self.now, mode, period, trigger }
    }

    /// Overwrites the input's event with an occurrence at this frame's
    /// instant: last write wins, never cumulative.
    pub fn trigger(&self, inp: &mut Input)
        ensures
            final(inp).ev == Event::Occurred(self.now),
    {
        inp.ev = Event::Occurred(self.now);
    }
}

impl Input {
    /// A fresh register whose event has not occurred: derived timebases stay
    /// inert until the first stamp.
    pub fn new() -> (r: Input)
        ensures
            r.ev == Event::Never,
    {
        Input { ev: Event::Never }
    }
}

impl Default for Input {
    /// The same unfired register as `Input::new`.
    fn default() -> (r: Input)
        ensures
            r.ev == Event::Never,
    {
        Input { ev: Event::Never }
    }
}

impl From<Input> for Event {
    /// Reads the input's current event by value: a snapshot, not a live
    /// reference.
    fn from(i: Input) -> (r: Event) {
        i.ev
    }
}

impl vstd::std_specs::convert::FromSpecImpl<Input> for Event {
    open spec fn obeys_from_spec() -> bool {
        true
    }

    open spec fn from_spec(i: Input) -> Event {
        i.ev
    }
}

} // verus!
