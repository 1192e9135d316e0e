//! The failure taxonomy shared by every host-facing operation, and its
//! translation to and from the host's signed status-code convention.
//!
//! The host communicates failure only through negative integers; non-negative
//! values mean success (and may carry a payload such as a byte count).  Each
//! error kind below is pinned to one fixed negative code, so the translation
//! is exact in both directions.

use vstd::prelude::*;

verus! {

/// One failure kind, as surfaced to handler code and to registration callers.
#[derive(Clone, Copy, Debug, PartialEq, Eq, Structural)]
pub enum Error {
    /// An argument was malformed (empty name, out-of-range offset, ...).
    InvalidArgument,
    /// A referenced object (for example a parent directory) does not exist.
    NotFound,
    /// A name already resolves to a live entry under the same directory.
    AlreadyExists,
    /// The host could not allocate the resources for the request.
    OutOfMemory,
    /// The operation is not implemented by this handler.
    Unsupported,
    /// The resource is locked or otherwise temporarily unavailable.
    Busy,
    /// A host-reported failure with no richer classification.
    Unknown,
}

impl Error {
    /// The negative status code that stands for this error kind.
    pub open spec fn spec_code(self) -> int {
        match self {
            Error::InvalidArgument => -22,
            Error::NotFound => -2,
            Error::AlreadyExists => -17,
            Error::OutOfMemory => -12,
            Error::Unsupported => -38,
            Error::Busy => -16,
            Error::Unknown => -5,
        }
    }

    /// Translate this error into the host's status-code convention.
    pub fn status_code(self) -> (code: i64)
        ensures
            code == self.spec_code(),
    {
        match self {
            Error::InvalidArgument => -22,
            Error::NotFound => -2,
            Error::AlreadyExists => -17,
            Error::OutOfMemory => -12,
            Error::Unsupported => -38,
            Error::Busy => -16,
            Error::Unknown => -5,
        }
    }

    /// Classify a host status code: `None` for success values (non-negative),
    /// the matching error kind for every negative code.
    pub fn classify_status(code: i64) -> (r: Option<Error>)
        ensures
            r == Error::spec_classify(code as int),
    {
        if code >= 0 {
            None
        } else if code == -22 {
            Some(Error::InvalidArgument)
        } else if code == -2 {
            Some(Error::NotFound)
        } else if code == -17 {
            Some(Error::AlreadyExists)
        } else if code == -12 {
            Some(Error::OutOfMemory)
        } else if code == -38 {
            Some(Error::Unsupported)
        } else if code == -16 {
            Some(Error::Busy)
        } else {
            Some(Error::Unknown)
        }
    }

    /// Specification of [`Error::classify_status`].
    pub open spec fn spec_classify(code: int) -> Option<Error> {
        if code >= 0 {
            None
        } else if code == -22 {
            Some(Error::InvalidArgument)
        } else if code == -2 {
            Some(Error::NotFound)
        } else if code == -17 {
            Some(Error::AlreadyExists)
        } else if code == -12 {
            Some(Error::OutOfMemory)
        } else if code == -38 {
            Some(Error::Unsupported)
        } else if code == -16 {
            Some(Error::Busy)
        } else {
            Some(Error::Unknown)
        }
    }
}

/// True exactly for the codes that stand for an error kind.
pub open spec fn is_error_code(code: int) -> bool {
    exists|e: Error| e.spec_code() == code
}

/// Every error code is strictly negative, and translating an error to its
/// code and classifying that code again round-trips to the same error.
pub proof fn lemma_status_code_round_trip(e: Error)
    ensures
        e.spec_code() < 0,
        is_error_code(e.spec_code()),
        Error::spec_classify(e.spec_code()) == Some(e),
{
    assert(is_error_code(e.spec_code())) by {
        assert(e.spec_code() == e.spec_code());
    }
}

} // verus!
