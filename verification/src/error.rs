//! The errors that the file operations report, and what the platform said
//! of an operation that failed.

use vstd::prelude::*;

verus! {

/// Why a file operation failed.
#[derive(Clone, Copy, Debug, PartialEq, Eq, Structural)]
pub enum IoError {
    /// No file could be opened at the path.
    NotFound,
    /// The platform refused access to the file.
    PermissionDenied,
    /// The bytes are not valid text.
    DecodeError,
    /// The file was open and the write to it failed.
    WriteFailure,
}

/// What the platform said of an operation that failed.
#[derive(Clone, Copy, Debug, PartialEq, Eq, Structural)]
pub enum Fault {
    /// There is no file at the path.
    Missing,
    /// Access was refused.
    Denied,
    /// Anything else.
    Other,
}

/// The error for a file that could not be opened: `PermissionDenied` where
/// access was refused, `NotFound` for every other fault.
pub open spec fn open_error(fault: Fault) -> IoError {
    match fault {
        Fault::Denied => IoError::PermissionDenied,
        Fault::Missing | Fault::Other => IoError::NotFound,
    }
}

impl IoError {
    /// The error for a file that could not be opened.
    pub fn from_open_fault(fault: Fault) -> (err: IoError)
        ensures
            err == open_error(fault),
    {
        match fault {
            Fault::Denied => IoError::PermissionDenied,
            Fault::Missing | Fault::Other => IoError::NotFound,
        }
    }
}

} // verus!
