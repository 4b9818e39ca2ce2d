use backend::error::{ApiError, ApiErrorKind};

#[test]
fn status_codes_by_kind() {
    assert_eq!(ApiError::BadRequest("m".to_string()).status_code(), 400);
    assert_eq!(ApiError::Unauthorized("m".to_string()).status_code(), 401);
    assert_eq!(ApiError::Forbidden("m".to_string()).status_code(), 403);
    assert_eq!(ApiError::NotFound("m".to_string()).status_code(), 404);
    assert_eq!(ApiError::Conflict("m".to_string()).status_code(), 409);
    assert_eq!(ApiError::ServiceUnavailable("m".to_string()).status_code(), 503);
    assert_eq!(ApiError::InternalError("m".to_string()).status_code(), 500);
}

#[test]
fn public_message_is_the_message() {
    assert_eq!(ApiError::BadRequest("bad input".to_string()).public_message(), "bad input");
    assert_eq!(ApiError::Unauthorized("who".to_string()).public_message(), "who");
    assert_eq!(ApiError::Forbidden("no".to_string()).public_message(), "no");
    assert_eq!(ApiError::NotFound("gone".to_string()).public_message(), "gone");
    assert_eq!(ApiError::Conflict("twice".to_string()).public_message(), "twice");
    assert_eq!(ApiError::ServiceUnavailable("later".to_string()).public_message(), "later");
    assert_eq!(ApiError::InternalError("".to_string()).public_message(), "");
}

#[test]
fn kinds() {
    assert_eq!(ApiError::BadRequest("m".to_string()).kind(), ApiErrorKind::BadRequest);
    assert_eq!(ApiError::Conflict("m".to_string()).kind(), ApiErrorKind::Conflict);
    assert_eq!(ApiError::InternalError("m".to_string()).kind(), ApiErrorKind::InternalError);
}
