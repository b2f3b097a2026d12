//! The error type shared by all services, with its HTTP status mapping
//! and its display text.
use vstd::prelude::*;
use vstd::string::*;

verus! {

/// Unified error of the services. Handlers map it to an HTTP status code;
/// clients match on the variant.
#[derive(Debug, Clone)]
pub enum AppError {
    NotFound(String),
    Validation(String),
    Unauthorized,
    Forbidden(String),
    Conflict(String),
    Database(String),
    Kafka(String),
    InvalidTransition { from: String, to: String },
    Serialisation(String),
    Internal(String),
}

/// The HTTP status code of an error.
pub open spec fn status_of(e: AppError) -> u16 {
    match e {
        AppError::NotFound(_) => 404,
        AppError::Validation(_) => 422,
        AppError::Unauthorized => 401,
        AppError::Forbidden(_) => 403,
        AppError::Conflict(_) => 409,
        AppError::InvalidTransition { .. } => 422,
        AppError::Database(_) => 500,
        AppError::Kafka(_) => 500,
        AppError::Serialisation(_) => 500,
        AppError::Internal(_) => 500,
    }
}

/// The display text of an error.
pub open spec fn message_of(e: AppError) -> Seq<char> {
    match e {
        AppError::NotFound(m) => "not found: "@ + m@,
        AppError::Validation(m) => "validation error: "@ + m@,
        AppError::Unauthorized => "unauthorized"@,
        AppError::Forbidden(m) => "forbidden: "@ + m@,
        AppError::Conflict(m) => "conflict: "@ + m@,
        AppError::Database(m) => "database error: "@ + m@,
        AppError::Kafka(m) => "kafka error: "@ + m@,
        AppError::InvalidTransition { from, to } =>
            "invalid state transition from "@ + from@ + " to "@ + to@,
        AppError::Serialisation(m) => "serialisation error: "@ + m@,
        AppError::Internal(m) => "internal error: "@ + m@,
    }
}

impl AppError {
    /// HTTP status code of the error.
    pub fn status_code(&self) -> (r: u16)
        ensures
            r == status_of(*self),
    {
        match self {
            AppError::NotFound(_) => 404,
            AppError::Validation(_) => 422,
            AppError::Unauthorized => 401,
            AppError::Forbidden(_) => 403,
            AppError::Conflict(_) => 409,
            AppError::InvalidTransition { .. } => 422,
            AppError::Database(_) | AppError::Kafka(_) | AppError::Serialisation(_)
            | AppError::Internal(_) => 500,
        }
    }

    /// Whether the error is the client's fault (a status below 500).
    pub fn is_client_error(&self) -> (r: bool)
        ensures
            r == (status_of(*self) < 500),
    {
        self.status_code() < 500
    }

    /// The text that `Display` shows for the error.
    pub fn to_string(&self) -> (r: String)
        ensures
            r@ == message_of(*self),
    {
        match self {
            AppError::NotFound(m) => String::from_str("not found: ").concat(m.as_str()),
            AppError::Validation(m) => String::from_str("validation error: ").concat(m.as_str()),
            AppError::Unauthorized => String::from_str("unauthorized"),
            AppError::Forbidden(m) => String::from_str("forbidden: ").concat(m.as_str()),
            AppError::Conflict(m) => String::from_str("conflict: ").concat(m.as_str()),
            AppError::Database(m) => String::from_str("database error: ").concat(m.as_str()),
            AppError::Kafka(m) => String::from_str("kafka error: ").concat(m.as_str()),
            AppError::InvalidTransition { from, to } => {
                let s = String::from_str("invalid state transition from ").concat(from.as_str());
                s.concat(" to ").concat(to.as_str())
            },
            AppError::Serialisation(m) => String::from_str("serialisation error: ").concat(
                m.as_str(),
            ),
            AppError::Internal(m) => String::from_str("internal error: ").concat(m.as_str()),
        }
    }
}

/// A database error carrying the display text of `e`.
pub fn db_err<E: std::fmt::Display>(e: E) -> (r: AppError)
    ensures
        r matches AppError::Database(m) && to_string_from_display_ensures::<E>(&e, m),
{
    AppError::Database(e.to_string())
}

/// A serialisation error carrying the display text of `e`.
pub fn ser_err<E: std::fmt::Display>(e: E) -> (r: AppError)
    ensures
        r matches AppError::Serialisation(m) && to_string_from_display_ensures::<E>(&e, m),
{
    AppError::Serialisation(e.to_string())
}

/// An error is a client error exactly when its status is a 4xx code, and a
/// server error exactly when it is 500.
pub proof fn lemma_client_error_status(e: AppError)
    ensures
        status_of(e) < 500 <==> 400 <= status_of(e) < 500,
        status_of(e) >= 500 <==> status_of(e) == 500,
        status_of(e) == 500 <==> (e is Database || e is Kafka || e is Serialisation
            || e is Internal),
{
}

} // verus!
