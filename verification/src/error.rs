//! The error type of the payment capability and of the provider adapters.

use vstd::prelude::*;
use vstd::string::*;

verus! {

/// What went wrong, as callers branch on it.
#[derive(Clone, Copy, Debug, PartialEq, Eq)]
pub enum ErrorKind {
    Validation,
    InvalidState,
    Conflict,
    NotFound,
    Storage,
    ProviderUnavailable,
    Locked,
}

/// An error of a payment operation: its kind and a human-readable message.
#[derive(Clone, Debug, PartialEq, Eq)]
pub struct ServiceError {
    pub kind: ErrorKind,
    pub message: String,
}

/// The wire code of each error kind.
pub open spec fn kind_code(kind: ErrorKind) -> Seq<char> {
    match kind {
        ErrorKind::Validation => "validation"@,
        ErrorKind::InvalidState => "invalid-state"@,
        ErrorKind::Conflict => "conflict"@,
        ErrorKind::NotFound => "not-found"@,
        ErrorKind::Storage => "storage"@,
        ErrorKind::ProviderUnavailable => "provider-unavailable"@,
        ErrorKind::Locked => "locked"@,
    }
}

impl ServiceError {
    /// An error of the given kind whose message is `message`.
    pub fn new(kind: ErrorKind, message: &str) -> (r: Self)
        ensures
            r.kind == kind,
            r.message@ == message@,
    {
        ServiceError { kind, message: message.to_owned() }
    }

    pub fn validation(message: &str) -> (r: Self)
        ensures
            r.kind == ErrorKind::Validation,
            r.message@ == message@,
    {
        Self::new(ErrorKind::Validation, message)
    }

    pub fn invalid_state(message: &str) -> (r: Self)
        ensures
            r.kind == ErrorKind::InvalidState,
            r.message@ == message@,
    {
        Self::new(ErrorKind::InvalidState, message)
    }

    pub fn conflict(message: &str) -> (r: Self)
        ensures
            r.kind == ErrorKind::Conflict,
            r.message@ == message@,
    {
        Self::new(ErrorKind::Conflict, message)
    }

    pub fn not_found(message: &str) -> (r: Self)
        ensures
            r.kind == ErrorKind::NotFound,
            r.message@ == message@,
    {
        Self::new(ErrorKind::NotFound, message)
    }

    pub fn storage(message: &str) -> (r: Self)
        ensures
            r.kind == ErrorKind::Storage,
            r.message@ == message@,
    {
        Self::new(ErrorKind::Storage, message)
    }

    pub fn provider_unavailable(message: &str) -> (r: Self)
        ensures
            r.kind == ErrorKind::ProviderUnavailable,
            r.message@ == message@,
    {
        Self::new(ErrorKind::ProviderUnavailable, message)
    }

    pub fn locked(message: &str) -> (r: Self)
        ensures
            r.kind == ErrorKind::Locked,
            r.message@ == message@,
    {
        Self::new(ErrorKind::Locked, message)
    }

    /// The wire code of this error.
    pub fn code(&self) -> (r: &'static str)
        ensures
            r@ == kind_code(self.kind),
    {
        match self.kind {
            ErrorKind::Validation => "validation",
            ErrorKind::InvalidState => "invalid-state",
            ErrorKind::Conflict => "conflict",
            ErrorKind::NotFound => "not-found",
            ErrorKind::Storage => "storage",
            ErrorKind::ProviderUnavailable => "provider-unavailable",
            ErrorKind::Locked => "locked",
        }
    }

    /// The message of this error.
    pub fn message(&self) -> (r: &str)
        ensures
            r@ == self.message@,
    {
        self.message.as_str()
    }
}

/// A message made of a fixed prefix followed by a detail.
pub fn message_with(prefix: &str, detail: &str) -> (r: String)
    ensures
        r@ == prefix@ + detail@,
{
    let head = prefix.to_owned();
    head.concat(detail)
}

} // verus!
