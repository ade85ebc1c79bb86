//! The failures that the library reports, by kind.

use vstd::prelude::*;

verus! {

/// The discriminant of a response envelope.
#[derive(Clone, Copy, Debug, PartialEq, Eq, Structural)]
pub enum ResponseKind {
    /// The list of installed applications.
    AppsListed,
    /// The descriptor of one application, or its absence.
    AppInfo,
    /// The bytes that a remote function returned.
    ZomeCall,
    /// The remote's explicit error.
    Error,
    /// Any other response that the remote may send.
    Other,
}

/// Why a connection is unusable.
#[derive(Clone, Copy, Debug, PartialEq, Eq, Structural)]
pub enum ConnectionCause {
    /// Every attempt that the retry policy allows has failed.
    RetriesExhausted { attempts: u32 },
    /// The transport failed after the connection was established.
    Dropped,
    /// The connection is not established yet.
    NotConnected,
    /// The channel awaits the response to a request.
    Busy,
    /// The channel is open and awaits nothing of what was reported to it.
    Unawaited,
}

/// Why the configuration cannot be used.
#[derive(Clone, Copy, Debug, PartialEq, Eq, Structural)]
pub enum ConfigCause {
    /// The bundle could not be read or parsed.
    Unreadable,
    /// The bundle carries a version tag that is not supported.
    UnsupportedVersion { version: u32 },
    /// The core application that a request refers to is not installed.
    CoreAppNotInstalled,
    /// The core application is installed and has no cell to call.
    CoreAppWithoutCells,
}

/// Why no signature can be had.
#[derive(Clone, Copy, Debug, PartialEq, Eq, Structural)]
pub enum SigningCause {
    /// The bundle could not be unlocked: wrong password or corrupt bundle.
    Unlock,
    /// The signing operation itself failed.
    Sign,
}

/// The five kinds of failure.
#[derive(Clone, Copy, Debug, PartialEq, Eq, Structural)]
pub enum ErrorKind {
    Connection,
    Protocol,
    UnexpectedResponse,
    Config,
    Signing,
}

/// A failure of one of the library's operations.
#[derive(Debug, PartialEq, Eq)]
#[allow(inconsistent_fields)]
pub enum Error {
    /// The transport is unreachable, or the retries are exhausted.
    Connection { cause: ConnectionCause },
    /// The remote answered with an explicit error.
    Protocol { details: String },
    /// The response is not of the kind that the request calls for.
    UnexpectedResponse { got: ResponseKind },
    /// The bundle or the installed applications do not allow the operation.
    Config { cause: ConfigCause },
    /// The identity could not be unlocked, or signing failed.
    Signing { cause: SigningCause },
}

/// An `Error` with its text as a sequence of characters.
#[allow(inconsistent_fields)]
pub enum ErrorModel {
    Connection { cause: ConnectionCause },
    Protocol { details: Seq<char> },
    UnexpectedResponse { got: ResponseKind },
    Config { cause: ConfigCause },
    Signing { cause: SigningCause },
}

impl View for Error {
    type V = ErrorModel;

    open spec fn view(&self) -> ErrorModel {
        match *self {
            Error::Connection { cause } => ErrorModel::Connection { cause },
            Error::Protocol { details } => ErrorModel::Protocol { details: details@ },
            Error::UnexpectedResponse { got } => ErrorModel::UnexpectedResponse { got },
            Error::Config { cause } => ErrorModel::Config { cause },
            Error::Signing { cause } => ErrorModel::Signing { cause },
        }
    }
}

impl ErrorModel {
    /// The kind of the failure.
    pub open spec fn kind(self) -> ErrorKind {
        match self {
            ErrorModel::Connection { .. } => ErrorKind::Connection,
            ErrorModel::Protocol { .. } => ErrorKind::Protocol,
            ErrorModel::UnexpectedResponse { .. } => ErrorKind::UnexpectedResponse,
            ErrorModel::Config { .. } => ErrorKind::Config,
            ErrorModel::Signing { .. } => ErrorKind::Signing,
        }
    }
}

impl Clone for Error {
    fn clone(&self) -> (out: Self)
        ensures
            out@ == self@,
    {
        match self {
            Error::Connection { cause } => Error::Connection { cause: *cause },
            Error::Protocol { details } => Error::Protocol { details: details.clone() },
            Error::UnexpectedResponse { got } => Error::UnexpectedResponse { got: *got },
            Error::Config { cause } => Error::Config { cause: *cause },
            Error::Signing { cause } => Error::Signing { cause: *cause },
        }
    }
}

impl Error {
    /// The kind of the failure.
    pub fn kind(&self) -> (k: ErrorKind)
        ensures
            k == self@.kind(),
    {
        match self {
            Error::Connection { .. } => ErrorKind::Connection,
            Error::Protocol { .. } => ErrorKind::Protocol,
            Error::UnexpectedResponse { .. } => ErrorKind::UnexpectedResponse,
            Error::Config { .. } => ErrorKind::Config,
            Error::Signing { .. } => ErrorKind::Signing,
        }
    }
}

} // verus!
