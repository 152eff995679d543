//! Status codes returned by failed system calls.

use vstd::prelude::*;

verus! {

/// A failure status.  Every variant has a numeric code in `1..=16`; the
/// code is what crosses the system call boundary.
#[derive(Clone, Copy, Debug, PartialEq, Eq, Structural)]
pub enum Error {
    Cancelled,
    Unknown,
    InvalidArgument,
    DeadlineExceeded,
    NotFound,
    AlreadyExists,
    PermissionDenied,
    ResourceExhausted,
    FailedPrecondition,
    Aborted,
    OutOfRange,
    Unimplemented,
    Internal,
    Unavailable,
    DataLoss,
    Unauthenticated,
}

/// The numeric code of an error.
pub open spec fn error_code(e: Error) -> int {
    match e {
        Error::Cancelled => 1,
        Error::Unknown => 2,
        Error::InvalidArgument => 3,
        Error::DeadlineExceeded => 4,
        Error::NotFound => 5,
        Error::AlreadyExists => 6,
        Error::PermissionDenied => 7,
        Error::ResourceExhausted => 8,
        Error::FailedPrecondition => 9,
        Error::Aborted => 10,
        Error::OutOfRange => 11,
        Error::Unimplemented => 12,
        Error::Internal => 13,
        Error::Unavailable => 14,
        Error::DataLoss => 15,
        Error::Unauthenticated => 16,
    }
}

/// Whether `code` is the code of some error.
pub open spec fn is_error_code(code: int) -> bool {
    1 <= code <= 16
}

/// The error whose code is `code`; meaningful only where `is_error_code(code)`.
pub open spec fn error_of_code(code: int) -> Error
    recommends
        is_error_code(code),
{
    if code == 1 {
        Error::Cancelled
    } else if code == 2 {
        Error::Unknown
    } else if code == 3 {
        Error::InvalidArgument
    } else if code == 4 {
        Error::DeadlineExceeded
    } else if code == 5 {
        Error::NotFound
    } else if code == 6 {
        Error::AlreadyExists
    } else if code == 7 {
        Error::PermissionDenied
    } else if code == 8 {
        Error::ResourceExhausted
    } else if code == 9 {
        Error::FailedPrecondition
    } else if code == 10 {
        Error::Aborted
    } else if code == 11 {
        Error::OutOfRange
    } else if code == 12 {
        Error::Unimplemented
    } else if code == 13 {
        Error::Internal
    } else if code == 14 {
        Error::Unavailable
    } else if code == 15 {
        Error::DataLoss
    } else {
        Error::Unauthenticated
    }
}

/// Every error's code is a valid code, and decoding it gives the error back.
pub proof fn lemma_error_code_round_trip(e: Error)
    ensures
        is_error_code(error_code(e)),
        error_of_code(error_code(e)) == e,
{
}

/// Decoding a valid code and encoding the error again gives the code back.
pub proof fn lemma_code_error_round_trip(code: int)
    requires
        is_error_code(code),
    ensures
        error_code(error_of_code(code)) == code,
{
}

impl Error {
    /// The numeric code of this error.
    pub fn code(self) -> (r: u32)
        ensures
            r == error_code(self),
            is_error_code(r as int),
    {
        match self {
            Error::Cancelled => 1,
            Error::Unknown => 2,
            Error::InvalidArgument => 3,
            Error::DeadlineExceeded => 4,
            Error::NotFound => 5,
            Error::AlreadyExists => 6,
            Error::PermissionDenied => 7,
            Error::ResourceExhausted => 8,
            Error::FailedPrecondition => 9,
            Error::Aborted => 10,
            Error::OutOfRange => 11,
            Error::Unimplemented => 12,
            Error::Internal => 13,
            Error::Unavailable => 14,
            Error::DataLoss => 15,
            Error::Unauthenticated => 16,
        }
    }

    /// The error with the given code.
    pub fn from_code(code: u32) -> (r: Error)
        requires
            is_error_code(code as int),
        ensures
            r == error_of_code(code as int),
            error_code(r) == code,
    {
        if code == 1 {
            Error::Cancelled
        } else if code == 2 {
            Error::Unknown
        } else if code == 3 {
            Error::InvalidArgument
        } else if code == 4 {
            Error::DeadlineExceeded
        } else if code == 5 {
            Error::NotFound
        } else if code == 6 {
            Error::AlreadyExists
        } else if code == 7 {
            Error::PermissionDenied
        } else if code == 8 {
            Error::ResourceExhausted
        } else if code == 9 {
            Error::FailedPrecondition
        } else if code == 10 {
            Error::Aborted
        } else if code == 11 {
            Error::OutOfRange
        } else if code == 12 {
            Error::Unimplemented
        } else if code == 13 {
            Error::Internal
        } else if code == 14 {
            Error::Unavailable
        } else if code == 15 {
            Error::DataLoss
        } else {
            Error::Unauthenticated
        }
    }
}

} // verus!
