//! The two ways in which serving a request can fail.

use std::sync::PoisonError;
use vstd::prelude::*;
use vstd::std_specs::convert::FromSpecImpl;

verus! {

/// `std::sync::PoisonError`, the error of acquiring a lock whose holder
/// panicked. Nothing is known of what it holds.
#[verifier::external_type_specification]
#[verifier::external_body]
#[verifier::reject_recursive_types(T)]
pub struct ExPoisonError<T>(std::sync::PoisonError<T>);

/// Why a request could not be served.
#[derive(Clone, Copy, Debug, PartialEq, Eq, Structural)]
pub enum HandlerError {
    /// The shared counter could not be advanced: its lock is poisoned, or
    /// the counter has no value left to give.
    StateAccess,
    /// The hand-off channel did not take the token: its consumer is gone.
    Dispatch,
}

impl<T> From<PoisonError<T>> for HandlerError {
    /// A poisoned lock is a failure to access the shared state, whatever
    /// it guards.
    fn from(_value: PoisonError<T>) -> (error: HandlerError) {
        HandlerError::StateAccess
    }
}

impl<T> FromSpecImpl<PoisonError<T>> for HandlerError {
    open spec fn obeys_from_spec() -> bool {
        true
    }

    open spec fn from_spec(_value: PoisonError<T>) -> HandlerError {
        HandlerError::StateAccess
    }
}

} // verus!
