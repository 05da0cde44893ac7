//! The three knobs of the engine: the size of each worker pool and the
//! capacity of the hand-off channel between them.

use vstd::prelude::*;

verus! {

/// The largest number of slots that a hand-off channel can have.
pub const MAX_CAPACITY: usize = usize::MAX / 8;

/// Whether a hand-off channel can have `capacity` slots.
pub open spec fn capacity_ok(capacity: usize) -> bool {
    0 < capacity <= MAX_CAPACITY
}

/// The sizes that an engine is built with. Every pool has a worker and the
/// channel has a slot, so that a value of this type can always be built on.
pub struct Sizing {
    fast_workers: usize,
    background_workers: usize,
    channel_capacity: usize,
}

/// Whether an engine can be built with these sizes.
pub open spec fn sizes_ok(
    fast_workers: usize,
    background_workers: usize,
    channel_capacity: usize,
) -> bool {
    fast_workers > 0 && background_workers > 0 && capacity_ok(channel_capacity)
}

impl View for Sizing {
    type V = (usize, usize, usize);

    /// The workers of the fast pool, the workers of the background pool and
    /// the slots of the channel, in this order.
    closed spec fn view(&self) -> (usize, usize, usize) {
        (self.fast_workers, self.background_workers, self.channel_capacity)
    }
}

impl Sizing {
    #[verifier::type_invariant]
    spec fn well_formed(self) -> bool {
        sizes_ok(self.fast_workers, self.background_workers, self.channel_capacity)
    }

    /// The sizes as given, where an engine can be built with them.
    pub fn new(fast_workers: usize, background_workers: usize, channel_capacity: usize) -> (sizing:
        Option<Sizing>)
        ensures
            sizing is Some <==> sizes_ok(fast_workers, background_workers, channel_capacity),
            sizing matches Some(s) ==> s@ == (fast_workers, background_workers, channel_capacity),
    {
        if fast_workers > 0 && background_workers > 0 && 0 < channel_capacity && channel_capacity
            <= MAX_CAPACITY {
            Some(Sizing { fast_workers, background_workers, channel_capacity })
        } else {
            None
        }
    }

    /// The number of workers of the fast execution context.
    pub fn fast_workers(&self) -> (workers: usize)
        ensures
            workers == self@.0,
            workers > 0,
    {
        proof {
            use_type_invariant(self);
        }
        self.fast_workers
    }

    /// The number of workers of the background execution context.
    pub fn background_workers(&self) -> (workers: usize)
        ensures
            workers == self@.1,
            workers > 0,
    {
        proof {
            use_type_invariant(self);
        }
        self.background_workers
    }

    /// The number of slots of the hand-off channel.
    pub fn channel_capacity(&self) -> (capacity: usize)
        ensures
            capacity == self@.2,
            capacity_ok(capacity),
    {
        proof {
            use_type_invariant(self);
        }
        self.channel_capacity
    }
}

impl Default for Sizing {
    /// A wide fast pool of four workers, a narrow background pool of two,
    /// and a channel of thirty-two slots.
    fn default() -> (sizing: Sizing)
        ensures
            sizing@ == (4usize, 2usize, 32usize),
    {
        Sizing { fast_workers: 4, background_workers: 2, channel_capacity: 32 }
    }
}

} // verus!
