//! Errors of the data layer, each with its HTTP status, its machine-readable
//! code and its message.

use vstd::prelude::*;

verus! {

/// An error of the data layer.
#[derive(Debug, Clone, PartialEq, Eq)]
pub enum CustomError {
    ValidationError(String),
    DuplicateError(String),
    NotFoundError(String),
    InternalServerError(String),
}

/// The HTTP status of an error.
pub open spec fn status_of(e: CustomError) -> u16 {
    match e {
        CustomError::ValidationError(_) => 400,
        CustomError::DuplicateError(_) => 409,
        CustomError::NotFoundError(_) => 404,
        CustomError::InternalServerError(_) => 500,
    }
}

/// The machine-readable code of an error.
pub open spec fn code_of(e: CustomError) -> Seq<char> {
    match e {
        CustomError::ValidationError(_) => "VALIDATION_ERROR"@,
        CustomError::DuplicateError(_) => "DUPLICATE_ERROR"@,
        CustomError::NotFoundError(_) => "NOT_FOUND_ERROR"@,
        CustomError::InternalServerError(_) => "INTERNAL_SERVER_ERROR"@,
    }
}

/// The message of an error: its kind, a colon, then its detail.
pub open spec fn message_of(e: CustomError) -> Seq<char> {
    match e {
        CustomError::ValidationError(d) => "Validation Error: "@ + d@,
        CustomError::DuplicateError(d) => "Duplicate Error: "@ + d@,
        CustomError::NotFoundError(d) => "Not Found Error: "@ + d@,
        CustomError::InternalServerError(d) => "Internal Server Error: "@ + d@,
    }
}

impl CustomError {
    pub fn status_code(&self) -> (r: u16)
        ensures
            r == status_of(*self),
    {
        match self {
            CustomError::ValidationError(_) => 400,
            CustomError::DuplicateError(_) => 409,
            CustomError::NotFoundError(_) => 404,
            CustomError::InternalServerError(_) => 500,
        }
    }

    pub fn error_code(&self) -> (r: &'static str)
        ensures
            r@ == code_of(*self),
    {
        match self {
            CustomError::ValidationError(_) => "VALIDATION_ERROR",
            CustomError::DuplicateError(_) => "DUPLICATE_ERROR",
            CustomError::NotFoundError(_) => "NOT_FOUND_ERROR",
            CustomError::InternalServerError(_) => "INTERNAL_SERVER_ERROR",
        }
    }

    pub fn message(&self) -> (r: String)
        ensures
            r@ == message_of(*self),
    {
        let (kind, detail) = match self {
            CustomError::ValidationError(d) => ("Validation Error: ", d),
            CustomError::DuplicateError(d) => ("Duplicate Error: ", d),
            CustomError::NotFoundError(d) => ("Not Found Error: ", d),
            CustomError::InternalServerError(d) => ("Internal Server Error: ", d),
        };
        let mut m = String::from_str(kind);
        m.append(detail.as_str());
        m
    }
}

} // verus!
