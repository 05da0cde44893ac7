//! Units of work, and the execution context that each kind belongs on.

use vstd::prelude::*;

verus! {

/// How long a simulated unit of work takes, in milliseconds.
pub const SIMULATED_MILLIS: u64 = 3000;

/// The two execution contexts.
#[derive(Clone, Copy, Debug, PartialEq, Eq, Structural)]
pub enum Tier {
    /// Serves requests: many short tasks that wait without holding a worker.
    Fast,
    /// Runs what holds a worker for its whole duration.
    Background,
}

/// Whether a unit of work holds its worker while it runs.
#[derive(Clone, Copy, Debug, PartialEq, Eq, Structural)]
pub enum WorkKind {
    /// Waits on a timer and yields its worker meanwhile.
    NonBlocking,
    /// Occupies its worker until it is done.
    Blocking,
}

/// A unit of work for the call numbered `call_no`.
#[derive(Clone, Copy, Debug, PartialEq, Eq, Structural)]
pub struct Work {
    pub kind: WorkKind,
    pub call_no: u32,
}

impl Work {
    /// The execution context that this work belongs on: blocking work never
    /// shares a worker with request handling.
    pub open spec fn spec_tier(&self) -> Tier {
        match self.kind {
            WorkKind::NonBlocking => Tier::Fast,
            WorkKind::Blocking => Tier::Background,
        }
    }

    /// The execution context that this work belongs on.
    pub fn tier(&self) -> (tier: Tier)
        ensures
            tier == self.spec_tier(),
    {
        match self.kind {
            WorkKind::NonBlocking => Tier::Fast,
            WorkKind::Blocking => Tier::Background,
        }
    }
}

} // verus!
