//! The service's error value: an HTTP-facing status class and a message.
use vstd::prelude::*;

verus! {

/// The class of a failed request, mapped to an HTTP status by the server.
#[derive(Clone, Copy, Debug, PartialEq, Eq, Structural)]
pub enum ErrorStatus {
    BadRequest,
    Unauthorized,
    Forbidden,
    NotFound,
    Conflict,
    Internal,
}

/// A failed request: its status class and the message shown to the user.
#[derive(Clone, Debug)]
pub struct AppError {
    pub status: ErrorStatus,
    pub message: String,
}

impl AppError {
    /// An error of class `status` with message `message`.
    pub fn new(status: ErrorStatus, message: &str) -> (e: AppError)
        ensures
            e.status == status,
            e.message@ == message@,
    {
        AppError { status, message: message.to_owned() }
    }

    /// A rejected request (400).
    pub fn bad_request(message: &str) -> (e: AppError)
        ensures
            e.status == ErrorStatus::BadRequest,
            e.message@ == message@,
    {
        AppError::new(ErrorStatus::BadRequest, message)
    }

    /// Missing or wrong credentials (401).
    pub fn unauthorized(message: &str) -> (e: AppError)
        ensures
            e.status == ErrorStatus::Unauthorized,
            e.message@ == message@,
    {
        AppError::new(ErrorStatus::Unauthorized, message)
    }

    /// The caller lacks the role for the request (403).
    pub fn forbidden(message: &str) -> (e: AppError)
        ensures
            e.status == ErrorStatus::Forbidden,
            e.message@ == message@,
    {
        AppError::new(ErrorStatus::Forbidden, message)
    }

    /// The addressed record does not exist (404).
    pub fn not_found(message: &str) -> (e: AppError)
        ensures
            e.status == ErrorStatus::NotFound,
            e.message@ == message@,
    {
        AppError::new(ErrorStatus::NotFound, message)
    }

    /// The request collides with an existing record (409).
    pub fn conflict(message: &str) -> (e: AppError)
        ensures
            e.status == ErrorStatus::Conflict,
            e.message@ == message@,
    {
        AppError::new(ErrorStatus::Conflict, message)
    }

    /// A failure on the server's side (500).
    pub fn internal(message: &str) -> (e: AppError)
        ensures
            e.status == ErrorStatus::Internal,
            e.message@ == message@,
    {
        AppError::new(ErrorStatus::Internal, message)
    }
}

} // verus!
