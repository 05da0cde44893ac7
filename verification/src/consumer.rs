//! The consumer loop of the background execution context, as the decision
//! it takes on each thing that it receives.

use crate::work::Tier;
use crate::work::Work;
use crate::work::WorkKind;
use vstd::prelude::*;

verus! {

/// What the consumer does next.
#[derive(Clone, Copy, Debug, PartialEq, Eq, Structural)]
pub enum ConsumerStep {
    /// Submit the work to the background context's own runner, then
    /// receive again.
    Run(Work),
    /// The channel is closed and drained: leave the loop.
    Stop,
}

/// What the consumer does on `received`.
pub open spec fn on_received_spec(received: Option<u32>) -> ConsumerStep {
    match received {
        Some(token) => ConsumerStep::Run(Work { kind: WorkKind::Blocking, call_no: token }),
        None => ConsumerStep::Stop,
    }
}

/// Decides what the consumer does on what the hand-off channel gave it: a
/// token is answered with the blocking work for that token, the end of the
/// channel with the end of the loop.
pub fn on_received(received: Option<u32>) -> (step: ConsumerStep)
    ensures
        step == on_received_spec(received),
{
    match received {
        Some(token) => ConsumerStep::Run(Work { kind: WorkKind::Blocking, call_no: token }),
        None => ConsumerStep::Stop,
    }
}

/// The work that answers the tokens of `received`, one for each and in
/// their order.
pub open spec fn works_for(received: Seq<u32>) -> Seq<Work> {
    Seq::new(received.len(), |i: int| Work { kind: WorkKind::Blocking, call_no: received[i] })
}

/// Every token is answered with exactly one unit of work: the blocking work
/// for that token, which belongs on the background context. Only the end
/// of the channel ends the loop.
pub proof fn lemma_each_token_runs_once(received: Seq<u32>, index: int)
    requires
        0 <= index < received.len(),
    ensures
        on_received_spec(Some(received[index])) == ConsumerStep::Run(works_for(received)[index]),
        works_for(received).len() == received.len(),
        works_for(received)[index].call_no == received[index],
        works_for(received)[index].spec_tier() == Tier::Background,
        on_received_spec(None) == ConsumerStep::Stop,
{
}

} // verus!
