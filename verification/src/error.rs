use vstd::prelude::*;

verus! {

/// The errors that the service answers a request with.
#[derive(Debug)]
pub enum ApiError {
    /// The request is malformed or breaks a rule of the service.
    Validation(String),
    /// No valid session.
    Unauthorized(String),
    /// A session, but not the permission.
    Forbidden(String),
    /// The object does not exist or is not visible to the caller.
    NotFound(String),
    /// The request conflicts with the current state.
    Conflict(String),
    /// A failure of the service or of its storage.
    Internal(String),
}

/// `e` is a validation error with the message `message`.
pub open spec fn is_validation(e: ApiError, message: Seq<char>) -> bool {
    e matches ApiError::Validation(m) && m@ == message
}

pub open spec fn is_unauthorized(e: ApiError, message: Seq<char>) -> bool {
    e matches ApiError::Unauthorized(m) && m@ == message
}

pub open spec fn is_forbidden(e: ApiError, message: Seq<char>) -> bool {
    e matches ApiError::Forbidden(m) && m@ == message
}

pub open spec fn is_not_found(e: ApiError, message: Seq<char>) -> bool {
    e matches ApiError::NotFound(m) && m@ == message
}

pub open spec fn is_conflict(e: ApiError, message: Seq<char>) -> bool {
    e matches ApiError::Conflict(m) && m@ == message
}

pub open spec fn is_internal(e: ApiError, message: Seq<char>) -> bool {
    e matches ApiError::Internal(m) && m@ == message
}

/// The message that an error carries.
pub open spec fn error_message(e: ApiError) -> Seq<char> {
    match e {
        ApiError::Validation(m) => m@,
        ApiError::Unauthorized(m) => m@,
        ApiError::Forbidden(m) => m@,
        ApiError::NotFound(m) => m@,
        ApiError::Conflict(m) => m@,
        ApiError::Internal(m) => m@,
    }
}

/// The HTTP status that answers an error.
pub open spec fn error_status(e: ApiError) -> u16 {
    match e {
        ApiError::Validation(_) => 400,
        ApiError::Unauthorized(_) => 401,
        ApiError::Forbidden(_) => 403,
        ApiError::NotFound(_) => 404,
        ApiError::Conflict(_) => 409,
        ApiError::Internal(_) => 500,
    }
}

impl ApiError {
    /// A validation error with `message`.
    pub fn validation(message: &str) -> (e: ApiError)
        ensures
            is_validation(e, message@),
    {
        ApiError::Validation(message.to_owned())
    }

    /// A not-found error with `message`.
    pub fn not_found(message: &str) -> (e: ApiError)
        ensures
            is_not_found(e, message@),
    {
        ApiError::NotFound(message.to_owned())
    }

    /// An internal error with `message`.
    pub fn internal(message: &str) -> (e: ApiError)
        ensures
            is_internal(e, message@),
    {
        ApiError::Internal(message.to_owned())
    }

    /// An authentication error with `message`.
    pub fn unauthorized(message: &str) -> (e: ApiError)
        ensures
            is_unauthorized(e, message@),
    {
        ApiError::Unauthorized(message.to_owned())
    }

    /// A permission error with `message`.
    pub fn forbidden(message: &str) -> (e: ApiError)
        ensures
            is_forbidden(e, message@),
    {
        ApiError::Forbidden(message.to_owned())
    }

    /// A conflict with `message`.
    pub fn conflict(message: &str) -> (e: ApiError)
        ensures
            is_conflict(e, message@),
    {
        ApiError::Conflict(message.to_owned())
    }

    /// The message of the error, as the response body and the logs show it.
    pub fn message(&self) -> (m: String)
        ensures
            m@ == error_message(*self),
    {
        match self {
            ApiError::Validation(m) => m.clone(),
            ApiError::Unauthorized(m) => m.clone(),
            ApiError::Forbidden(m) => m.clone(),
            ApiError::NotFound(m) => m.clone(),
            ApiError::Conflict(m) => m.clone(),
            ApiError::Internal(m) => m.clone(),
        }
    }

    /// The HTTP status code of the error.
    pub fn status(&self) -> (code: u16)
        ensures
            code == error_status(*self),
    {
        match self {
            ApiError::Validation(_) => 400,
            ApiError::Unauthorized(_) => 401,
            ApiError::Forbidden(_) => 403,
            ApiError::NotFound(_) => 404,
            ApiError::Conflict(_) => 409,
            ApiError::Internal(_) => 500,
        }
    }
}

} // verus!
