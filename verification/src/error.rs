//! The error type of the first service generation.
use vstd::prelude::*;
use vstd::string::*;

verus! {

#[derive(Debug)]
pub enum AppError {
    NotFound(String),
    Validation(String),
    Database(String),
    Unauthorized,
    Internal(String),
}

/// The display text of an error.
pub open spec fn message_of(e: AppError) -> Seq<char> {
    match e {
        AppError::NotFound(m) => "Not found: "@ + m@,
        AppError::Validation(m) => "Validation error: "@ + m@,
        AppError::Database(m) => "Database error: "@ + m@,
        AppError::Unauthorized => "Unauthorized"@,
        AppError::Internal(m) => "Internal error: "@ + m@,
    }
}

impl AppError {
    /// The text that `Display` shows for the error.
    pub fn to_string(&self) -> (r: String)
        ensures
            r@ == message_of(*self),
    {
        match self {
            AppError::NotFound(m) => String::from_str("Not found: ").concat(m.as_str()),
            AppError::Validation(m) => String::from_str("Validation error: ").concat(m.as_str()),
            AppError::Database(m) => String::from_str("Database error: ").concat(m.as_str()),
            AppError::Unauthorized => String::from_str("Unauthorized"),
            AppError::Internal(m) => String::from_str("Internal error: ").concat(m.as_str()),
        }
    }
}

} // verus!
