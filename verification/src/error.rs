//! Domain error hierarchy shared by every module.

use vstd::prelude::*;
use crate::text::concat2;

verus! {

/// The unified domain error type.
#[derive(Debug)]
pub enum DomainError {
    /// Input validation failed (field- or aggregate-level).
    Validation(String),
    /// The requested resource was not found.
    NotFound(String),
    /// The caller is not authorized for this operation.
    Unauthorized(String),
    /// A conflict was detected (optimistic lock, duplicate, state machine).
    Conflict(String),
    /// An unexpected internal error occurred.
    Internal(String),
}

impl DomainError {
    /// Create a validation error carrying the displayed message.
    pub fn validation(msg: impl core::fmt::Display) -> (e: Self)
        ensures
            e matches DomainError::Validation(m) && vstd::string::to_string_from_display_ensures(
                &msg,
                m,
            ),
    {
        DomainError::Validation(msg.to_string())
    }

    /// Create a not-found error carrying the displayed message.
    pub fn not_found(msg: impl core::fmt::Display) -> (e: Self)
        ensures
            e matches DomainError::NotFound(m) && vstd::string::to_string_from_display_ensures(
                &msg,
                m,
            ),
    {
        DomainError::NotFound(msg.to_string())
    }

    /// Create an unauthorized error carrying the displayed message.
    pub fn unauthorized(msg: impl core::fmt::Display) -> (e: Self)
        ensures
            e matches DomainError::Unauthorized(m) && vstd::string::to_string_from_display_ensures(
                &msg,
                m,
            ),
    {
        DomainError::Unauthorized(msg.to_string())
    }

    /// Create a conflict error carrying the displayed message.
    pub fn conflict(msg: impl core::fmt::Display) -> (e: Self)
        ensures
            e matches DomainError::Conflict(m) && vstd::string::to_string_from_display_ensures(
                &msg,
                m,
            ),
    {
        DomainError::Conflict(msg.to_string())
    }

    /// Create an internal error carrying the displayed message.
    pub fn internal(msg: impl core::fmt::Display) -> (e: Self)
        ensures
            e matches DomainError::Internal(m) && vstd::string::to_string_from_display_ensures(
                &msg,
                m,
            ),
    {
        DomainError::Internal(msg.to_string())
    }
}

impl DomainError {
    /// The error's text: a prefix naming its kind, then its message.
    pub fn to_string(&self) -> (s: String)
        ensures
            s@ == match self {
                DomainError::Validation(m) => "validation error: "@ + m@,
                DomainError::NotFound(m) => "not found: "@ + m@,
                DomainError::Unauthorized(m) => "unauthorized: "@ + m@,
                DomainError::Conflict(m) => "conflict: "@ + m@,
                DomainError::Internal(m) => "internal error: "@ + m@,
            },
    {
        match self {
            DomainError::Validation(m) => concat2("validation error: ", m.as_str()),
            DomainError::NotFound(m) => concat2("not found: ", m.as_str()),
            DomainError::Unauthorized(m) => concat2("unauthorized: ", m.as_str()),
            DomainError::Conflict(m) => concat2("conflict: ", m.as_str()),
            DomainError::Internal(m) => concat2("internal error: ", m.as_str()),
        }
    }
}

} // verus!
