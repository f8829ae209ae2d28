use steward::status::HttpError;

#[test]
fn status_codes() {
    assert_eq!(HttpError::BadRequest.code(), 400);
    assert_eq!(HttpError::Unauthorized.code(), 401);
    assert_eq!(HttpError::InternalServerError.code(), 500);
}
