use gog::errors::{ServiceError, SessionValidationError, UserIdError};

#[test]
fn session_validation_responses() {
    let r = SessionValidationError::NoCookie.error_response();
    assert_eq!((r.status, r.reason.as_str()), (400, "user session cookie not provided"));
    let r = SessionValidationError::NoSession.error_response();
    assert_eq!((r.status, r.reason.as_str()), (403, "no active user session"));
    let r = SessionValidationError::Other { detail: "x".to_string() }.error_response();
    assert_eq!((r.status, r.reason.as_str()), (500, "an internal error has occured"));
    assert_eq!(SessionValidationError::NoCookie.message(), "No user session cookie");
}

#[test]
fn user_id_responses() {
    let r = UserIdError::NoUser.error_response();
    assert_eq!((r.status, r.reason.as_str()), (400, "user does not exist"));
    let r = UserIdError::DatabaseError { detail: "down".to_string() }.error_response();
    assert_eq!((r.status, r.reason.as_str()), (500, "database error"));
    assert_eq!(UserIdError::NoUser.message(), "No user in database");
}

#[test]
fn service_responses() {
    let r = ServiceError::WrongPassword.error_response();
    assert_eq!((r.status, r.reason.as_str()), (403, "wrong password"));
    let r = ServiceError::UserNotFound.error_response();
    assert_eq!((r.status, r.reason.as_str()), (400, "user not found"));
    let r = ServiceError::SessionError { detail: String::new() }.error_response();
    assert_eq!((r.status, r.reason.as_str()), (500, "session error"));
    let r = ServiceError::DatabaseError { detail: String::new() }.error_response();
    assert_eq!((r.status, r.reason.as_str()), (500, "database error"));
    let r = ServiceError::from(SessionValidationError::NoSession).error_response();
    assert_eq!((r.status, r.reason.as_str()), (403, "no active user session"));
    let r = ServiceError::from(UserIdError::NoUser).error_response();
    assert_eq!((r.status, r.reason.as_str()), (400, "user does not exist"));
    assert_eq!(ServiceError::UserNotFound.message(), "User not found");
}
