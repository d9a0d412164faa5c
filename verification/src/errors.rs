//! API-wide error type. Every decision of the API returns
//! `Result<_, ApiError>`; this module fixes the status code each variant
//! is answered with and the message a client sees. 5xx details are for the
//! log only, never for the client.

use vstd::prelude::*;

verus! {

broadcast use vstd::string::group_string_axioms;

/// `chrono::ParseError`, carried by [`ApiError::CorruptTimestamp`].
#[verifier::external_type_specification]
#[verifier::external_body]
pub struct ExChronoParseError(chrono::ParseError);

/// `password_hash::Error` (re-exported by argon2), carried by
/// [`ApiError::PasswordHash`].
#[verifier::external_type_specification]
#[verifier::external_body]
pub struct ExPasswordHashError(argon2::password_hash::Error);

/// What the database layer reported: whether the failure was a missing
/// row, and a description for the log.
#[derive(Debug)]
pub struct DatabaseFailure {
    pub row_not_found: bool,
    pub detail: String,
}

#[derive(Debug)]
pub enum ApiError {
    Unauthorized,
    Forbidden,
    NotFound,
    Conflict(String),
    Validation(String),
    Database(DatabaseFailure),
    /// Stored JSON did not parse; holds the parser's message.
    CorruptData(String),
    CorruptTimestamp(chrono::ParseError),
    PasswordHash(argon2::password_hash::Error),
    /// A file operation failed; holds its message.
    Io(String),
}

/// The body of every error response.
pub struct ErrorBody {
    /// Human readable error message.
    pub error: String,
}

/// `e` is a validation error with message `msg`.
pub open spec fn is_validation(e: ApiError, msg: Seq<char>) -> bool {
    e matches ApiError::Validation(m) && m@ == msg
}

/// `e` is a conflict error with message `msg`.
pub open spec fn is_conflict(e: ApiError, msg: Seq<char>) -> bool {
    e matches ApiError::Conflict(m) && m@ == msg
}

/// The HTTP status code each error is answered with.
pub open spec fn status_of(e: ApiError) -> u16 {
    match e {
        ApiError::Unauthorized => 401,
        ApiError::Forbidden => 403,
        ApiError::NotFound => 404,
        ApiError::Conflict(_) => 409,
        ApiError::Validation(_) => 422,
        ApiError::Database(f) => if f.row_not_found { 404 } else { 500 },
        _ => 500,
    }
}

/// The error's own message (its `Display` text).
pub open spec fn message_of(e: ApiError) -> Seq<char> {
    match e {
        ApiError::Unauthorized => "authentication required"@,
        ApiError::Forbidden => "insufficient permissions"@,
        ApiError::NotFound => "not found"@,
        ApiError::Conflict(m) => m@,
        ApiError::Validation(m) => m@,
        ApiError::Database(_) => "database error"@,
        ApiError::CorruptData(_) => "stored data is corrupt"@,
        ApiError::CorruptTimestamp(_) => "timestamp in database is not RFC 3339"@,
        ApiError::PasswordHash(_) => "password hashing failed"@,
        ApiError::Io(_) => "io error"@,
    }
}

/// What the client is told: the message for 4xx, a fixed text for 5xx.
pub open spec fn client_message_of(e: ApiError) -> Seq<char> {
    if status_of(e) >= 500 {
        "internal error"@
    } else {
        message_of(e)
    }
}

impl ApiError {
    pub fn status_code(&self) -> (r: u16)
        ensures
            r == status_of(*self),
    {
        match self {
            ApiError::Unauthorized => 401,
            ApiError::Forbidden => 403,
            ApiError::NotFound => 404,
            ApiError::Conflict(_) => 409,
            ApiError::Validation(_) => 422,
            ApiError::Database(f) => if f.row_not_found { 404 } else { 500 },
            _ => 500,
        }
    }

    /// Whether the error is answered with a 5xx status (and logged).
    pub fn is_server_error(&self) -> (r: bool)
        ensures
            r == (status_of(*self) >= 500),
    {
        self.status_code() >= 500
    }

    pub fn message(&self) -> (r: String)
        ensures
            r@ == message_of(*self),
    {
        match self {
            ApiError::Unauthorized => "authentication required".to_string(),
            ApiError::Forbidden => "insufficient permissions".to_string(),
            ApiError::NotFound => "not found".to_string(),
            ApiError::Conflict(m) => m.clone(),
            ApiError::Validation(m) => m.clone(),
            ApiError::Database(_) => "database error".to_string(),
            ApiError::CorruptData(_) => "stored data is corrupt".to_string(),
            ApiError::CorruptTimestamp(_) => "timestamp in database is not RFC 3339".to_string(),
            ApiError::PasswordHash(_) => "password hashing failed".to_string(),
            ApiError::Io(_) => "io error".to_string(),
        }
    }

    /// The body sent to the client.
    pub fn error_body(&self) -> (r: ErrorBody)
        ensures
            r.error@ == client_message_of(*self),
    {
        if self.is_server_error() {
            ErrorBody { error: "internal error".to_string() }
        } else {
            ErrorBody { error: self.message() }
        }
    }
}

/// 5xx details never reach the client: every error answered with a 5xx
/// status gets the same fixed text, whatever it holds, and every other
/// error its own message.
pub proof fn lemma_server_errors_hide_details(e1: ApiError, e2: ApiError)
    ensures
        status_of(e1) >= 500 && status_of(e2) >= 500 ==> client_message_of(e1)
            == client_message_of(e2) && client_message_of(e1) == "internal error"@,
        status_of(e1) < 500 ==> client_message_of(e1) == message_of(e1),
{
}

/// A looked-up row that does not exist is 404.
pub fn found<T>(value: Option<T>) -> (r: Result<T, ApiError>)
    ensures
        match value {
            Some(v) => r == Ok::<T, ApiError>(v),
            None => r matches Err(ApiError::NotFound),
        },
{
    match value {
        Some(v) => Ok(v),
        None => Err(ApiError::NotFound),
    }
}

/// A change that touched no row addressed a missing row: 404.
pub fn require_affected(rows_affected: u64) -> (r: Result<(), ApiError>)
    ensures
        r is Ok <==> rows_affected > 0,
        r matches Err(e) ==> e is NotFound,
{
    if rows_affected == 0 {
        return Err(ApiError::NotFound);
    }
    Ok(())
}


/// The status each error is answered with: 401 without a session, 403
/// without the role, 404 for a missing row, 409 for a conflict, 422 for a
/// refused input, and 500 for every failure of the server itself.
pub proof fn lemma_statuses(e: ApiError)
    ensures
        status_of(e) == match e {
            ApiError::Unauthorized => 401u16,
            ApiError::Forbidden => 403u16,
            ApiError::NotFound => 404u16,
            ApiError::Conflict(_) => 409u16,
            ApiError::Validation(_) => 422u16,
            ApiError::Database(f) => if f.row_not_found {
                404u16
            } else {
                500u16
            },
            ApiError::CorruptData(_) => 500u16,
            ApiError::CorruptTimestamp(_) => 500u16,
            ApiError::PasswordHash(_) => 500u16,
            ApiError::Io(_) => 500u16,
        },
{
}

} // verus!
