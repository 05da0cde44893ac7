//! The shared counter: one unsigned integer that only ever grows by one.

use vstd::prelude::*;

verus! {

/// The state shared by all requests: the number of calls counted so far.
pub struct State {
    calls: u32,
}

impl View for State {
    type V = nat;

    closed spec fn view(&self) -> nat {
        self.calls as nat
    }
}

impl State {
    /// A counter that has counted nothing.
    pub fn new() -> (state: State)
        ensures
            state@ == 0,
    {
        State { calls: 0 }
    }

    /// The number of calls counted so far.
    pub fn calls(&self) -> (calls: u32)
        ensures
            calls == self@,
    {
        self.calls
    }

    /// Counts one more call and returns the new count. The counter must
    /// have a value left to give: it never wraps and never repeats one.
    pub fn increment(&mut self) -> (call_no: u32)
        requires
            old(self)@ < u32::MAX,
        ensures
            final(self)@ == old(self)@ + 1,
            call_no == final(self)@,
    {
        self.calls = self.calls + 1;
        self.calls
    }
}

} // verus!
