use dispatch_engine::error::HandlerError;
use dispatch_engine::response::MyResponse;

#[test]
fn value_becomes_success() {
    let response: MyResponse<u32> = MyResponse::from(Ok(Some(9)));
    assert_eq!(response, MyResponse::Success(9));
    assert_eq!(response.status(), 200);
}

#[test]
fn absent_value_becomes_no_content() {
    let response: MyResponse<u32> = MyResponse::from(Ok(None));
    assert_eq!(response, MyResponse::NoContent);
    assert_eq!(response.status(), 204);
}

#[test]
fn state_access_failure_becomes_internal_error() {
    let response: MyResponse<u32> = MyResponse::from(Err(HandlerError::StateAccess));
    assert_eq!(response, MyResponse::InternalServerError);
    assert_eq!(response.status(), 500);
}

#[test]
fn dispatch_failure_becomes_internal_error() {
    let response: MyResponse<u32> = MyResponse::from(Err(HandlerError::Dispatch));
    assert_eq!(response, MyResponse::InternalServerError);
}

#[test]
fn result_converts_with_into() {
    let result: Result<Option<u32>, HandlerError> = Ok(Some(3));
    let response: MyResponse<u32> = result.into();
    assert_eq!(response, MyResponse::Success(3));
}

#[test]
fn client_errors_have_their_status() {
    assert_eq!(MyResponse::<u32>::BadRequest.status(), 400);
    assert_eq!(MyResponse::<u32>::NotFound.status(), 404);
}
