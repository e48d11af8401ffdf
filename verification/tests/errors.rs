use nexus::errors::ApiError;

#[test]
fn each_failure_has_its_status() {
    assert_eq!(ApiError::Unauthorized("no".to_string()).status_code(), 401);
    assert_eq!(ApiError::InvalidLoginAttempt.status_code(), 400);
    assert_eq!(ApiError::Forbidden.status_code(), 500);
    assert_eq!(ApiError::NotFound("gone".to_string()).status_code(), 404);
    assert_eq!(ApiError::ApplicationStartup("boot".to_string()).status_code(), 500);
    assert_eq!(ApiError::BadRequest("bad".to_string()).status_code(), 400);
    assert_eq!(ApiError::InternalServerError.status_code(), 500);
    assert_eq!(ApiError::InternalServerErrorWithContext("ctx".to_string()).status_code(), 500);
    assert_eq!(ApiError::ObjectConflict("twice".to_string()).status_code(), 409);
}

#[test]
fn each_failure_has_its_message() {
    assert_eq!(ApiError::Unauthorized("no".to_string()).message(), "no");
    assert_eq!(ApiError::InvalidLoginAttempt.message(), "username or password is incorrect");
    assert_eq!(ApiError::Forbidden.message(), "Unexpected error");
    assert_eq!(ApiError::NotFound("gone".to_string()).message(), "gone");
    assert_eq!(ApiError::ApplicationStartup("boot".to_string()).message(), "Unexpected error");
    assert_eq!(ApiError::BadRequest("bad".to_string()).message(), "bad");
    assert_eq!(ApiError::InternalServerError.message(), "Unexpected error");
    assert_eq!(ApiError::InternalServerErrorWithContext("ctx".to_string()).message(), "ctx");
    assert_eq!(ApiError::ObjectConflict("twice".to_string()).message(), "twice");
}

#[test]
fn into_response_pairs_status_and_message() {
    assert_eq!(
        ApiError::ObjectConflict("User with that email id already exists".to_string())
            .into_response(),
        (409, "User with that email id already exists".to_string())
    );
    assert_eq!(
        ApiError::InvalidLoginAttempt.into_response(),
        (400, "username or password is incorrect".to_string())
    );
    assert_eq!(ApiError::Forbidden.into_response(), (500, "Unexpected error".to_string()));
}
