use vstd::prelude::*;

verus! {

/// Errors returned by computer-control operations.
#[derive(Clone, Copy, Debug, PartialEq, Eq, Structural)]
pub enum Error {
    /// The current operating system does not have a backend yet.
    UnsupportedPlatform,
    /// A coordinate was invalid for the requested operation.
    InvalidPoint,
    /// The process is not allowed to perform the requested operation.
    PermissionDenied,
    /// The requested computer-control operation failed.
    OperationFailed,
}

/// The human-readable description of each error.
pub open spec fn error_message(error: Error) -> Seq<char> {
    match error {
        Error::UnsupportedPlatform => "this platform is not supported yet"@,
        Error::InvalidPoint => "coordinates are invalid for this operation"@,
        Error::PermissionDenied => "operating system permission is required for this operation"@,
        Error::OperationFailed => "the computer-control operation failed"@,
    }
}

impl Error {
    /// Returns the human-readable description of this error.
    pub fn message(&self) -> (text: &'static str)
        ensures
            text@ == error_message(*self),
    {
        match self {
            Error::UnsupportedPlatform => "this platform is not supported yet",
            Error::InvalidPoint => "coordinates are invalid for this operation",
            Error::PermissionDenied => "operating system permission is required for this operation",
            Error::OperationFailed => "the computer-control operation failed",
        }
    }
}

} // verus!
