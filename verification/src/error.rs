//! The failure taxonomy shared by every component.

use vstd::prelude::*;

verus! {

/// The stable, machine-readable kind of a failure.
#[derive(Clone, Copy, Debug, PartialEq, Eq, Structural)]
pub enum ErrorKind {
    /// The supplied parameters are malformed, or a required field is missing.
    InvalidParams,
    /// A parameter is well-formed but semantically unacceptable.
    InvalidArgument,
    /// The referenced task does not exist.
    NotFound,
    /// The operation was invoked outside a valid session state.
    ProtocolError,
    /// The client asked for a protocol version that is not implemented.
    UnsupportedVersion,
}

impl ErrorKind {
    /// The name under which the kind travels in an error response.
    pub open spec fn label(self) -> Seq<char> {
        match self {
            ErrorKind::InvalidParams => "InvalidParams"@,
            ErrorKind::InvalidArgument => "InvalidArgument"@,
            ErrorKind::NotFound => "NotFound"@,
            ErrorKind::ProtocolError => "ProtocolError"@,
            ErrorKind::UnsupportedVersion => "UnsupportedVersion"@,
        }
    }

    /// The name under which the kind travels in an error response.
    pub fn name(self) -> (name: &'static str)
        ensures
            name@ == self.label(),
    {
        match self {
            ErrorKind::InvalidParams => "InvalidParams",
            ErrorKind::InvalidArgument => "InvalidArgument",
            ErrorKind::NotFound => "NotFound",
            ErrorKind::ProtocolError => "ProtocolError",
            ErrorKind::UnsupportedVersion => "UnsupportedVersion",
        }
    }
}

/// A failure: its kind, and a reason meant for a human reader.
#[derive(Debug)]
pub struct ServiceError {
    pub kind: ErrorKind,
    pub reason: String,
}

/// What a [`ServiceError`] holds, as plain mathematical values.
pub struct ErrorView {
    pub kind: ErrorKind,
    pub reason: Seq<char>,
}

impl View for ServiceError {
    type V = ErrorView;

    open spec fn view(&self) -> ErrorView {
        ErrorView { kind: self.kind, reason: self.reason@ }
    }
}

impl ServiceError {
    /// Builds a failure of the given kind whose reason is `reason`.
    pub fn new(kind: ErrorKind, reason: String) -> (e: ServiceError)
        ensures
            e@ == (ErrorView { kind, reason: reason@ }),
    {
        ServiceError { kind, reason }
    }
}

} // verus!
