//! Errors of the service layer and the HTTP response that each one becomes.
use vstd::prelude::*;

verus! {

/// The status line of an error response: the code and its reason phrase.
pub struct ErrorResponse {
    pub status: u16,
    pub reason: String,
}

pub open spec fn is_response(r: ErrorResponse, status: u16, reason: Seq<char>) -> bool {
    r.status == status && r.reason@ == reason
}

fn response(status: u16, reason: &str) -> (r: ErrorResponse)
    ensures
        is_response(r, status, reason@),
{
    ErrorResponse { status, reason: reason.to_owned() }
}

/// Why a request's login session could not be established.
pub enum SessionValidationError {
    NoSession,
    NoCookie,
    /// Anything else, with its description.
    Other { detail: String },
}

/// Why a login could not be turned into a user id.
pub enum UserIdError {
    NoUser,
    /// The database failed, with its description.
    DatabaseError { detail: String },
}

/// Failures of the request handlers.
#[allow(inconsistent_fields)]
pub enum ServiceError {
    UserNotFound,
    WrongPassword,
    /// Writing the session cookie failed, with the description.
    SessionError { detail: String },
    UserSessionError { source: SessionValidationError },
    UserIdError { source: UserIdError },
    /// The database failed, with its description.
    DatabaseError { detail: String },
}

pub open spec fn session_validation_response(e: SessionValidationError) -> (u16, Seq<char>) {
    match e {
        SessionValidationError::NoCookie => (400, "user session cookie not provided"@),
        SessionValidationError::NoSession => (403, "no active user session"@),
        SessionValidationError::Other { .. } => (500, "an internal error has occured"@),
    }
}

pub open spec fn user_id_response(e: UserIdError) -> (u16, Seq<char>) {
    match e {
        UserIdError::NoUser => (400, "user does not exist"@),
        UserIdError::DatabaseError { .. } => (500, "database error"@),
    }
}

pub open spec fn service_response(e: ServiceError) -> (u16, Seq<char>) {
    match e {
        ServiceError::WrongPassword => (403, "wrong password"@),
        ServiceError::UserNotFound => (400, "user not found"@),
        ServiceError::SessionError { .. } => (500, "session error"@),
        ServiceError::UserSessionError { source } => session_validation_response(source),
        ServiceError::UserIdError { source } => user_id_response(source),
        ServiceError::DatabaseError { .. } => (500, "database error"@),
    }
}

impl SessionValidationError {
    /// The response sent back for this error.
    pub fn error_response(&self) -> (r: ErrorResponse)
        ensures
            is_response(r, session_validation_response(*self).0, session_validation_response(*self).1),
    {
        match self {
            SessionValidationError::NoCookie => response(400, "user session cookie not provided"),
            SessionValidationError::NoSession => response(403, "no active user session"),
            SessionValidationError::Other { .. } => response(500, "an internal error has occured"),
        }
    }

    /// A one-line description of the error.
    pub fn message(&self) -> (r: String)
        ensures
            r@ == match *self {
                SessionValidationError::NoSession => "No user session"@,
                SessionValidationError::NoCookie => "No user session cookie"@,
                SessionValidationError::Other { .. } => "Other error"@,
            },
    {
        match self {
            SessionValidationError::NoSession => "No user session".to_owned(),
            SessionValidationError::NoCookie => "No user session cookie".to_owned(),
            SessionValidationError::Other { .. } => "Other error".to_owned(),
        }
    }
}

impl UserIdError {
    /// The response sent back for this error.
    pub fn error_response(&self) -> (r: ErrorResponse)
        ensures
            is_response(r, user_id_response(*self).0, user_id_response(*self).1),
    {
        match self {
            UserIdError::NoUser => response(400, "user does not exist"),
            UserIdError::DatabaseError { .. } => response(500, "database error"),
        }
    }

    /// A one-line description of the error.
    pub fn message(&self) -> (r: String)
        ensures
            r@ == match *self {
                UserIdError::NoUser => "No user in database"@,
                UserIdError::DatabaseError { .. } => "Database error"@,
            },
    {
        match self {
            UserIdError::NoUser => "No user in database".to_owned(),
            UserIdError::DatabaseError { .. } => "Database error".to_owned(),
        }
    }
}

impl ServiceError {
    /// The response sent back for this error; errors that wrap another one
    /// answer as the wrapped one does.
    pub fn error_response(&self) -> (r: ErrorResponse)
        ensures
            is_response(r, service_response(*self).0, service_response(*self).1),
    {
        match self {
            ServiceError::WrongPassword => response(403, "wrong password"),
            ServiceError::UserNotFound => response(400, "user not found"),
            ServiceError::SessionError { .. } => response(500, "session error"),
            ServiceError::UserSessionError { source } => source.error_response(),
            ServiceError::UserIdError { source } => source.error_response(),
            ServiceError::DatabaseError { .. } => response(500, "database error"),
        }
    }

    /// A one-line description of the error.
    pub fn message(&self) -> (r: String)
        ensures
            r@ == match *self {
                ServiceError::UserNotFound => "User not found"@,
                ServiceError::WrongPassword => "Wrong password"@,
                ServiceError::SessionError { .. } => "Session error"@,
                ServiceError::UserSessionError { .. } => "User session error"@,
                ServiceError::UserIdError { .. } => "UserId error"@,
                ServiceError::DatabaseError { .. } => "Database error"@,
            },
    {
        match self {
            ServiceError::UserNotFound => "User not found".to_owned(),
            ServiceError::WrongPassword => "Wrong password".to_owned(),
            ServiceError::SessionError { .. } => "Session error".to_owned(),
            ServiceError::UserSessionError { .. } => "User session error".to_owned(),
            ServiceError::UserIdError { .. } => "UserId error".to_owned(),
            ServiceError::DatabaseError { .. } => "Database error".to_owned(),
        }
    }
}

impl From<SessionValidationError> for ServiceError {
    fn from(source: SessionValidationError) -> (r: ServiceError)
        ensures
            r == (ServiceError::UserSessionError { source }),
    {
        ServiceError::UserSessionError { source }
    }
}

impl vstd::std_specs::convert::FromSpecImpl<SessionValidationError> for ServiceError {
    open spec fn obeys_from_spec() -> bool {
        true
    }

    open spec fn from_spec(source: SessionValidationError) -> ServiceError {
        ServiceError::UserSessionError { source }
    }
}

impl From<UserIdError> for ServiceError {
    fn from(source: UserIdError) -> (r: ServiceError)
        ensures
            r == (ServiceError::UserIdError { source }),
    {
        ServiceError::UserIdError { source }
    }
}

impl vstd::std_specs::convert::FromSpecImpl<UserIdError> for ServiceError {
    open spec fn obeys_from_spec() -> bool {
        true
    }

    open spec fn from_spec(source: UserIdError) -> ServiceError {
        ServiceError::UserIdError { source }
    }
}

} // verus!
