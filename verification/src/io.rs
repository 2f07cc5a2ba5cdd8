//! The `Error` type: a minimal wrapper around a raw OS error code.
//!
//! The error constants are individual `const`s rather than an enum
//! variant set, because the host OS may define error values this
//! module does not know about, and an unrecognized value must still
//! be representable and must round-trip unchanged.

use vstd::prelude::*;

verus! {

/// `EPERM`: operation not permitted.
pub const EPERM: i32 = 1;
/// `ENOENT`: no such file or directory.
pub const ENOENT: i32 = 2;
/// `EINTR`: interrupted by a signal.
pub const EINTR: i32 = 4;
/// `EAGAIN`: resource temporarily unavailable (also `EWOULDBLOCK`).
pub const EAGAIN: i32 = 11;
/// `EACCES`: permission denied.
pub const EACCES: i32 = 13;
/// `EEXIST`: file already exists.
pub const EEXIST: i32 = 17;
/// `EINVAL`: invalid argument.
pub const EINVAL: i32 = 22;
/// `ELOOP`: too many levels of symbolic links (also reported when a
/// resolution constraint forbids following one).
pub const ELOOP: i32 = 40;

/// A generic classification of an OS error code, independent of the
/// exact numeric value.
#[derive(Clone, Copy, PartialEq, Eq, Structural, Debug)]
pub enum ErrorKind {
    NotFound,
    PermissionDenied,
    AlreadyExists,
    WouldBlock,
    InvalidInput,
    Interrupted,
    FilesystemLoop,
    Other,
}

/// The codes the classification table below recognizes; every other
/// code classifies as `ErrorKind::Other`.
pub open spec fn recognized(code: i32) -> bool {
    code == EPERM || code == ENOENT || code == EINTR || code == EAGAIN
        || code == EACCES || code == EEXIST || code == EINVAL || code == ELOOP
}

/// The classification of a raw OS error code. This table is
/// OS-specific (the host's error-number table) and deliberately not
/// exhaustive: anything it does not list falls back to
/// `ErrorKind::Other` so that no code is ever lost or remapped.
pub open spec fn classify(code: i32) -> ErrorKind {
    if code == ENOENT {
        ErrorKind::NotFound
    } else if code == EPERM || code == EACCES {
        ErrorKind::PermissionDenied
    } else if code == EEXIST {
        ErrorKind::AlreadyExists
    } else if code == EAGAIN {
        ErrorKind::WouldBlock
    } else if code == EINVAL {
        ErrorKind::InvalidInput
    } else if code == EINTR {
        ErrorKind::Interrupted
    } else if code == ELOOP {
        ErrorKind::FilesystemLoop
    } else {
        ErrorKind::Other
    }
}

/// `errno` — an error code.
///
/// Holds exactly the raw OS error code and nothing else: it is
/// constructed from a code already extracted from a failed call,
/// immutable thereafter, and cannot itself fail.
#[derive(Clone, Copy, PartialEq, Eq, Structural, Debug, Hash)]
pub struct Error {
    code: i32,
}

impl Error {
    /// The raw OS error code this value carries.
    pub closed spec fn spec_raw_os_error(self) -> i32 {
        self.code
    }

    /// Wrap a raw OS error code, whatever it is: unrecognized values
    /// are kept exactly as given.
    pub fn from_raw_os_error(code: i32) -> (r: Error)
        ensures
            r.spec_raw_os_error() == code,
    {
        Error { code }
    }

    /// Read the raw OS error code back, unchanged.
    pub fn raw_os_error(self) -> (r: i32)
        ensures
            r == self.spec_raw_os_error(),
    {
        self.code
    }

    /// Classify the code. Never panics and never invents a code: an
    /// unrecognized value classifies as `ErrorKind::Other`.
    pub fn kind(self) -> (r: ErrorKind)
        ensures
            r == classify(self.spec_raw_os_error()),
    {
        if self.code == ENOENT {
            ErrorKind::NotFound
        } else if self.code == EPERM || self.code == EACCES {
            ErrorKind::PermissionDenied
        } else if self.code == EEXIST {
            ErrorKind::AlreadyExists
        } else if self.code == EAGAIN {
            ErrorKind::WouldBlock
        } else if self.code == EINVAL {
            ErrorKind::InvalidInput
        } else if self.code == EINTR {
            ErrorKind::Interrupted
        } else if self.code == ELOOP {
            ErrorKind::FilesystemLoop
        } else {
            ErrorKind::Other
        }
    }
}

/// Law: two error values are equal iff their raw codes are equal.
pub proof fn lemma_error_eq_iff_code_eq(a: Error, b: Error)
    ensures
        (a == b) <==> (a.spec_raw_os_error() == b.spec_raw_os_error()),
{
}

/// Law: an unrecognized code classifies as `ErrorKind::Other`.
/// Together with the postconditions of `Error::from_raw_os_error` and
/// `Error::raw_os_error`, this says that wrapping any code outside
/// the classification table reads back unchanged and falls back to
/// the "other" classification.
pub proof fn lemma_unrecognized_code_falls_back(code: i32)
    requires
        !recognized(code),
    ensures
        classify(code) == ErrorKind::Other,
{
}

} // verus!
