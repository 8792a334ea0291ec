//! Errors of the service's request handlers, each with its HTTP status, its
//! machine-readable code and its message.

use vstd::prelude::*;

verus! {

/// An error answered to a request.
#[derive(Debug, Clone, PartialEq, Eq)]
pub enum CustomError {
    UnauthorizedError(String),
    BadRequestError(String),
    ConflictError(String),
    InternalServerError(String),
    UnauthenticatedError(String),
    NotFoundError(String),
    ValidationError(String),
}

/// The HTTP status of an error.
pub open spec fn status_of(e: CustomError) -> u16 {
    match e {
        CustomError::UnauthorizedError(_) => 401,
        CustomError::BadRequestError(_) => 400,
        CustomError::ConflictError(_) => 409,
        CustomError::InternalServerError(_) => 500,
        CustomError::UnauthenticatedError(_) => 401,
        CustomError::NotFoundError(_) => 404,
        CustomError::ValidationError(_) => 400,
    }
}

/// The machine-readable code of an error.
pub open spec fn code_of(e: CustomError) -> Seq<char> {
    match e {
        CustomError::UnauthorizedError(_) => "UNAUTHORIZED_ERROR"@,
        CustomError::BadRequestError(_) => "BAD_REQUEST_ERROR"@,
        CustomError::ConflictError(_) => "CONFLICT_ERROR"@,
        CustomError::InternalServerError(_) => "INTERNAL_SERVER_ERROR"@,
        CustomError::UnauthenticatedError(_) => "UNAUTHENTICATED_ERROR"@,
        CustomError::NotFoundError(_) => "NOT_FOUND_ERROR"@,
        CustomError::ValidationError(_) => "VALIDATION_ERROR"@,
    }
}

/// The message of an error: its kind, a colon, then its detail.
pub open spec fn message_of(e: CustomError) -> Seq<char> {
    match e {
        CustomError::UnauthorizedError(d) => "Unauthorized: "@ + d@,
        CustomError::BadRequestError(d) => "Bad Request: "@ + d@,
        CustomError::ConflictError(d) => "Conflict: "@ + d@,
        CustomError::InternalServerError(d) => "Internal Server Error: "@ + d@,
        CustomError::UnauthenticatedError(d) => "Unauthenticated: "@ + d@,
        CustomError::NotFoundError(d) => "Not Found: "@ + d@,
        CustomError::ValidationError(d) => "Validation Error: "@ + d@,
    }
}

impl CustomError {
    pub fn status_code(&self) -> (r: u16)
        ensures
            r == status_of(*self),
    {
        match self {
            CustomError::UnauthorizedError(_) => 401,
            CustomError::BadRequestError(_) => 400,
            CustomError::ConflictError(_) => 409,
            CustomError::InternalServerError(_) => 500,
            CustomError::UnauthenticatedError(_) => 401,
            CustomError::NotFoundError(_) => 404,
            CustomError::ValidationError(_) => 400,
        }
    }

    pub fn error_code(&self) -> (r: &'static str)
        ensures
            r@ == code_of(*self),
    {
        match self {
            CustomError::UnauthorizedError(_) => "UNAUTHORIZED_ERROR",
            CustomError::BadRequestError(_) => "BAD_REQUEST_ERROR",
            CustomError::ConflictError(_) => "CONFLICT_ERROR",
            CustomError::InternalServerError(_) => "INTERNAL_SERVER_ERROR",
            CustomError::UnauthenticatedError(_) => "UNAUTHENTICATED_ERROR",
            CustomError::NotFoundError(_) => "NOT_FOUND_ERROR",
            CustomError::ValidationError(_) => "VALIDATION_ERROR",
        }
    }

    pub fn message(&self) -> (r: String)
        ensures
            r@ == message_of(*self),
    {
        let (kind, detail) = match self {
            CustomError::UnauthorizedError(d) => ("Unauthorized: ", d),
            CustomError::BadRequestError(d) => ("Bad Request: ", d),
            CustomError::ConflictError(d) => ("Conflict: ", d),
            CustomError::InternalServerError(d) => ("Internal Server Error: ", d),
            CustomError::UnauthenticatedError(d) => ("Unauthenticated: ", d),
            CustomError::NotFoundError(d) => ("Not Found: ", d),
            CustomError::ValidationError(d) => ("Validation Error: ", d),
        };
        let mut m = String::from_str(kind);
        m.append(detail.as_str());
        m
    }
}

} // verus!
