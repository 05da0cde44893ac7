//! The request path of the fast execution context, as the decisions between
//! its suspension points: the counter step, the hand-off, the response.

use crate::counter::State;
use crate::error::HandlerError;
use crate::response::MyResponse;
use crate::work::Tier;
use crate::work::Work;
use crate::work::WorkKind;
use vstd::prelude::*;

verus! {

/// What a request does once the counter step is over.
#[derive(Clone, Copy, Debug, PartialEq, Eq)]
pub enum Admission {
    /// The counter gave `token`: submit `inline` to the fast context's own
    /// runner, then send `token` on the hand-off channel.
    Forward { token: u32, inline: Work },
    /// The counter step failed: answer with the error.
    Refuse(HandlerError),
}

/// What the counter step returns on a counter that stands at `calls`.
pub open spec fn claim_spec(calls: nat) -> Result<u32, HandlerError> {
    if calls < u32::MAX {
        Ok((calls + 1) as u32)
    } else {
        Err(HandlerError::StateAccess)
    }
}

/// Where the counter stands after a counter step that found it at `calls`.
pub open spec fn calls_after(calls: nat) -> nat {
    if calls < u32::MAX {
        calls + 1
    } else {
        calls
    }
}

/// What follows a counter step that came to `counted`.
pub open spec fn route_spec(counted: Result<u32, HandlerError>) -> Admission {
    match counted {
        Ok(token) => Admission::Forward {
            token,
            inline: Work { kind: WorkKind::NonBlocking, call_no: token },
        },
        Err(error) => Admission::Refuse(error),
    }
}

/// The response to a request that held `token` when its send came to `sent`.
pub open spec fn conclude_spec(token: u32, sent: Result<(), HandlerError>) -> MyResponse<u32> {
    match sent {
        Ok(_) => MyResponse::Success(token),
        Err(_) => MyResponse::InternalServerError,
    }
}

/// What one request meets on its way: the state of the counter's lock when
/// it asks for exclusive access, and the state of the hand-off channel when
/// it sends.
#[derive(Clone, Copy, Debug, PartialEq, Eq, Structural)]
pub struct Conditions {
    pub lock_poisoned: bool,
    pub channel_closed: bool,
}

/// The response to a request that finds the counter at `calls` and meets
/// `conditions`: the new count where the lock is healthy, the counter has a
/// value left and the channel is open, and an internal error otherwise.
pub open spec fn serve_spec(calls: nat, conditions: Conditions) -> MyResponse<u32> {
    if !conditions.lock_poisoned && calls < u32::MAX && !conditions.channel_closed {
        MyResponse::Success((calls + 1) as u32)
    } else {
        MyResponse::InternalServerError
    }
}

/// Where a request that meets `conditions` leaves a counter that it found
/// at `calls`: nobody counts behind a poisoned lock.
pub open spec fn calls_served(calls: nat, conditions: Conditions) -> nat {
    if conditions.lock_poisoned {
        calls
    } else {
        calls_after(calls)
    }
}

/// The counter step, for the holder of exclusive access to `state`: counts
/// the call and returns its token. A counter that has given its last value
/// stays as it is and gives a state-access failure.
pub fn claim(state: &mut State) -> (counted: Result<u32, HandlerError>)
    ensures
        counted == claim_spec(old(state)@),
        final(state)@ == calls_after(old(state)@),
{
    if state.calls() < u32::MAX {
        Ok(state.increment())
    } else {
        Err(HandlerError::StateAccess)
    }
}

/// Decides what follows the counter step.
pub fn route(counted: Result<u32, HandlerError>) -> (next: Admission)
    ensures
        next == route_spec(counted),
{
    match counted {
        Ok(token) => Admission::Forward {
            token,
            inline: Work { kind: WorkKind::NonBlocking, call_no: token },
        },
        Err(error) => Admission::Refuse(error),
    }
}

/// The response to a request whose counter step failed with `error`: an
/// internal error, whatever the failure was.
pub fn refuse(error: HandlerError) -> (response: MyResponse<u32>)
    ensures
        response == MyResponse::<u32>::InternalServerError,
{
    MyResponse::from(Err(error))
}

/// The response to a request that holds `token`, once its send on the
/// hand-off channel has come to `sent`.
pub fn conclude(token: u32, sent: Result<(), HandlerError>) -> (response: MyResponse<u32>)
    ensures
        response == conclude_spec(token, sent),
{
    match sent {
        Ok(_) => MyResponse::from(Ok(Some(token))),
        Err(error) => MyResponse::from(Err(error)),
    }
}

/// The work that a request leaves on the fast context is the non-blocking
/// work for its own token: nothing that holds a worker runs beside the
/// requests.
pub proof fn lemma_inline_work_yields(counted: Result<u32, HandlerError>)
    requires
        counted is Ok,
    ensures
        route_spec(counted) is Forward,
        route_spec(counted)->token == counted->Ok_0,
        route_spec(counted)->inline.call_no == counted->Ok_0,
        route_spec(counted)->inline.spec_tier() == Tier::Fast,
{
}

/// The whole request path on one request that meets `conditions`: the
/// counter step, the choice of what follows, and the response.
pub fn serve(state: &mut State, conditions: Conditions) -> (response: MyResponse<u32>)
    ensures
        response == serve_spec(old(state)@, conditions),
        final(state)@ == calls_served(old(state)@, conditions),
{
    let counted = if conditions.lock_poisoned {
        Err(HandlerError::StateAccess)
    } else {
        claim(state)
    };
    match route(counted) {
        Admission::Forward { token, inline: _ } => {
            let sent = if conditions.channel_closed {
                Err(HandlerError::Dispatch)
            } else {
                Ok(())
            };
            conclude(token, sent)
        },
        Admission::Refuse(error) => refuse(error),
    }
}

} // verus!
