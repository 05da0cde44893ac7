//! The response contract: what a handler's result looks like to the caller
//! of the service.

use crate::error::HandlerError;
use vstd::prelude::*;
use vstd::std_specs::convert::FromSpecImpl;

verus! {

/// The responses that the service can give.
#[derive(Debug, PartialEq, Eq)]
pub enum MyResponse<T> {
    /// Success, with a value.
    Success(T),
    /// Success, with nothing to return.
    NoContent,
    /// The request was malformed.
    BadRequest,
    /// The request named something that does not exist.
    NotFound,
    /// The service failed.
    InternalServerError,
}

impl<T> MyResponse<T> {
    /// The status code that goes with the response.
    pub open spec fn spec_status(&self) -> u16 {
        match self {
            MyResponse::Success(_) => 200,
            MyResponse::NoContent => 204,
            MyResponse::BadRequest => 400,
            MyResponse::NotFound => 404,
            MyResponse::InternalServerError => 500,
        }
    }

    /// The status code that goes with the response.
    pub fn status(&self) -> (code: u16)
        ensures
            code == self.spec_status(),
    {
        match self {
            MyResponse::Success(_) => 200,
            MyResponse::NoContent => 204,
            MyResponse::BadRequest => 400,
            MyResponse::NotFound => 404,
            MyResponse::InternalServerError => 500,
        }
    }
}

impl<T> From<Result<Option<T>, HandlerError>> for MyResponse<T> {
    /// A value becomes `Success`, the absence of one `NoContent`, and every
    /// error `InternalServerError`.
    fn from(result: Result<Option<T>, HandlerError>) -> (response: MyResponse<T>) {
        match result {
            Ok(Some(entity)) => MyResponse::Success(entity),
            Ok(None) => MyResponse::NoContent,
            Err(e) => match e {
                HandlerError::StateAccess => MyResponse::InternalServerError,
                HandlerError::Dispatch => MyResponse::InternalServerError,
            },
        }
    }
}

impl<T> FromSpecImpl<Result<Option<T>, HandlerError>> for MyResponse<T> {
    open spec fn obeys_from_spec() -> bool {
        true
    }

    open spec fn from_spec(result: Result<Option<T>, HandlerError>) -> MyResponse<T> {
        match result {
            Ok(Some(entity)) => MyResponse::Success(entity),
            Ok(None) => MyResponse::NoContent,
            Err(_) => MyResponse::InternalServerError,
        }
    }
}

} // verus!
