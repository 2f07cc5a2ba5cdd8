//! Owned and borrowed OS resource handles, denoted by their raw
//! non-negative integer identifiers.
//!
//! An `OwnedFd` is the exclusive owner of one OS-managed resource: the
//! type is neither `Copy` nor `Clone`, so ownership can only move, and
//! at most one live owner exists at a time. A `BorrowedFd` is a
//! non-owning view whose lifetime the borrow checker keeps within its
//! owner's; it grants use of the identifier but no release duty.

use vstd::prelude::*;
use core::marker::PhantomData;

verus! {

/// An exclusively owned OS resource handle.
#[derive(Debug)]
pub struct OwnedFd {
    fd: i32,
}

/// A borrowed, non-owning view of an OS resource handle. It must not
/// outlive the owner it was taken from.
#[derive(Clone, Copy, Debug)]
pub struct BorrowedFd<'a> {
    fd: i32,
    owner: PhantomData<&'a OwnedFd>,
}

impl OwnedFd {
    /// The raw identifier this handle owns.
    pub closed spec fn spec_raw_fd(self) -> i32 {
        self.fd
    }

    /// Well-formedness: a resource identifier is non-negative (the OS
    /// reserves negative values for failure sentinels).
    pub open spec fn wf(self) -> bool {
        self.spec_raw_fd() >= 0
    }

    /// Treat a raw identifier as a fresh, exclusively owned handle.
    ///
    /// Unchecked precondition, enforced by convention: `fd` must be a
    /// genuinely OS-owned resource identifier that no other owner
    /// tracks, or the exclusive-ownership invariant is broken from the
    /// start.
    pub fn from_raw(fd: i32) -> (r: OwnedFd)
        requires
            fd >= 0,
        ensures
            r.spec_raw_fd() == fd,
            r.wf(),
    {
        OwnedFd { fd }
    }

    /// Expose the raw identifier for use by other OS calls, without
    /// transferring ownership.
    pub fn as_raw_fd(&self) -> (r: i32)
        ensures
            r == self.spec_raw_fd(),
    {
        self.fd
    }

    /// Borrow this handle.
    pub fn as_fd(&self) -> (r: BorrowedFd<'_>)
        ensures
            r.spec_raw_fd() == self.spec_raw_fd(),
    {
        BorrowedFd { fd: self.fd, owner: PhantomData }
    }

    /// Give up ownership, handing the raw identifier (and with it the
    /// release duty) to the caller.
    pub fn into_raw_fd(self) -> (r: i32)
        ensures
            r == self.spec_raw_fd(),
    {
        self.fd
    }
}

impl<'a> BorrowedFd<'a> {
    /// The raw identifier this view denotes.
    pub closed spec fn spec_raw_fd(self) -> i32 {
        self.fd
    }

    /// Expose the raw identifier, without granting any ownership.
    pub fn as_raw_fd(&self) -> (r: i32)
        ensures
            r == self.spec_raw_fd(),
    {
        self.fd
    }
}

} // verus!
