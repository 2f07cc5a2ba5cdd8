//! The pure logic of an `openat2`-style resource-acquisition call:
//! the opaque flag-set values, the fixed-layout ABI request record,
//! the widening of the open-flags pattern into that record, and the
//! interpretation of the raw return value as an owned handle or a
//! wrapped error.
//!
//! The OS call itself (a raw syscall on a null-terminated path,
//! relative to a directory handle) is left to the embedder; this
//! module fixes exactly what is handed to it and what its raw result
//! means.

use vstd::prelude::*;
use crate::fd::OwnedFd;
use crate::io::Error;

verus! {

/// `O_RDONLY`: open for reading only.
pub const O_RDONLY: i32 = 0;
/// `O_WRONLY`: open for writing only.
pub const O_WRONLY: i32 = 1;
/// `O_RDWR`: open for reading and writing.
pub const O_RDWR: i32 = 2;
/// `O_CREAT`: create the file if it does not exist.
pub const O_CREAT: i32 = 0x40;
/// `O_EXCL`: with `O_CREAT`, fail if the file already exists.
pub const O_EXCL: i32 = 0x80;
/// `O_CLOEXEC`: close the handle on exec.
pub const O_CLOEXEC: i32 = 0x80000;

/// `RESOLVE_NO_XDEV`: forbid crossing mount points.
pub const RESOLVE_NO_XDEV: u64 = 0x01;
/// `RESOLVE_NO_MAGICLINKS`: forbid traversal of "magic" links.
pub const RESOLVE_NO_MAGICLINKS: u64 = 0x02;
/// `RESOLVE_NO_SYMLINKS`: forbid traversal of any symbolic link.
pub const RESOLVE_NO_SYMLINKS: u64 = 0x04;
/// `RESOLVE_BENEATH`: restrict resolution to within the directory's subtree.
pub const RESOLVE_BENEATH: u64 = 0x08;
/// `RESOLVE_IN_ROOT`: treat the directory as the root of resolution.
pub const RESOLVE_IN_ROOT: u64 = 0x10;

/// An open-flags bitmask. The OS API surface types it as a signed
/// 32-bit value, though conceptually it is an unsigned bit pattern.
/// The bits are platform-defined and opaque here: union and
/// intersection are the only composition offered, and no bit is ever
/// reordered or reinterpreted.
#[derive(Clone, Copy, PartialEq, Eq, Structural, Debug)]
pub struct OFlags {
    bits: i32,
}

/// A permission-mode bitmask, opaque in the same way.
#[derive(Clone, Copy, PartialEq, Eq, Structural, Debug)]
pub struct Mode {
    bits: u32,
}

/// A resolution-constraint bitmask (forbid symlink traversal, stay
/// within a subtree, and so on). Each bit is OS-defined and opaque
/// here; the set of defined bits is open-ended, so any pattern is
/// representable.
#[derive(Clone, Copy, PartialEq, Eq, Structural, Debug)]
pub struct ResolveFlags {
    bits: u64,
}

impl OFlags {
    /// The raw bit pattern.
    pub closed spec fn spec_bits(self) -> i32 {
        self.bits
    }

    /// The empty bitmask.
    pub fn empty() -> (r: OFlags)
        ensures
            r.spec_bits() == 0,
    {
        OFlags { bits: 0 }
    }

    /// The bitmask with exactly the given raw bits; every pattern is
    /// representable, known to this module or not.
    pub fn from_bits(bits: i32) -> (r: OFlags)
        ensures
            r.spec_bits() == bits,
    {
        OFlags { bits }
    }

    /// The raw bit pattern, unchanged.
    pub fn bits(self) -> (r: i32)
        ensures
            r == self.spec_bits(),
    {
        self.bits
    }

    /// Union of the two bit sets.
    pub fn union(self, other: OFlags) -> (r: OFlags)
        ensures
            r.spec_bits() == self.spec_bits() | other.spec_bits(),
    {
        OFlags { bits: self.bits | other.bits }
    }

    /// Intersection of the two bit sets.
    pub fn intersection(self, other: OFlags) -> (r: OFlags)
        ensures
            r.spec_bits() == self.spec_bits() & other.spec_bits(),
    {
        OFlags { bits: self.bits & other.bits }
    }
}

impl Mode {
    /// The raw bit pattern.
    pub closed spec fn spec_bits(self) -> u32 {
        self.bits
    }

    /// The empty bitmask.
    pub fn empty() -> (r: Mode)
        ensures
            r.spec_bits() == 0,
    {
        Mode { bits: 0 }
    }

    /// The bitmask with exactly the given raw bits.
    pub fn from_bits(bits: u32) -> (r: Mode)
        ensures
            r.spec_bits() == bits,
    {
        Mode { bits }
    }

    /// The raw bit pattern, unchanged.
    pub fn bits(self) -> (r: u32)
        ensures
            r == self.spec_bits(),
    {
        self.bits
    }

    /// Union of the two bit sets.
    pub fn union(self, other: Mode) -> (r: Mode)
        ensures
            r.spec_bits() == self.spec_bits() | other.spec_bits(),
    {
        Mode { bits: self.bits | other.bits }
    }

    /// Intersection of the two bit sets.
    pub fn intersection(self, other: Mode) -> (r: Mode)
        ensures
            r.spec_bits() == self.spec_bits() & other.spec_bits(),
    {
        Mode { bits: self.bits & other.bits }
    }
}

impl ResolveFlags {
    /// The raw bit pattern.
    pub closed spec fn spec_bits(self) -> u64 {
        self.bits
    }

    /// The empty bitmask: no resolution constraint.
    pub fn empty() -> (r: ResolveFlags)
        ensures
            r.spec_bits() == 0,
    {
        ResolveFlags { bits: 0 }
    }

    /// The bitmask with exactly the given raw bits.
    pub fn from_bits(bits: u64) -> (r: ResolveFlags)
        ensures
            r.spec_bits() == bits,
    {
        ResolveFlags { bits }
    }

    /// The raw bit pattern, unchanged.
    pub fn bits(self) -> (r: u64)
        ensures
            r == self.spec_bits(),
    {
        self.bits
    }

    /// Union of the two bit sets.
    pub fn union(self, other: ResolveFlags) -> (r: ResolveFlags)
        ensures
            r.spec_bits() == self.spec_bits() | other.spec_bits(),
    {
        ResolveFlags { bits: self.bits | other.bits }
    }

    /// Intersection of the two bit sets.
    pub fn intersection(self, other: ResolveFlags) -> (r: ResolveFlags)
        ensures
            r.spec_bits() == self.spec_bits() & other.spec_bits(),
    {
        ResolveFlags { bits: self.bits & other.bits }
    }
}

/// The ABI request record: three consecutive 8-byte-aligned 64-bit
/// fields in the fixed order {open-flags (widened), mode,
/// resolve-constraints}. Its compiled size — 24 bytes, three 8-byte
/// fields — must be passed verbatim to the OS entry point; any
/// mismatch is an ABI violation, not a runtime-recoverable error.
#[derive(Clone, Copy, PartialEq, Eq, Structural, Debug)]
pub struct OpenHow {
    pub oflag: u64,
    pub mode: u64,
    pub resolve: u64,
}

/// The record's byte size: three 8-byte fields.
pub const OPEN_HOW_SIZE: usize = 24;

/// The numeric identifier of the open-with-resolution-constraints
/// entry point. It is fixed at build time for the target (the OS
/// assigns it the same number on its 32-bit and 64-bit tables) and is
/// never probed at runtime.
pub const SYS_OPENAT2: i64 = 437;

/// The 32-bit open-flags pattern widened to the record's 64-bit
/// field: zero-extension of the two's-complement bit pattern, so the
/// upper 32 bits are zero whatever the sign bit holds.
pub open spec fn widened_oflags(bits: i32) -> u64 {
    ((bits as u32) as u64)
}

/// Law: widening an open-flags pattern leaves the upper 32 bits of
/// the record field zero and carries the lower 32 bits unchanged,
/// even when the sign bit of the 32-bit form is set: reading the low
/// half back as a signed 32-bit value yields the original pattern.
pub proof fn lemma_widened_oflags_exact(bits: i32)
    ensures
        widened_oflags(bits) >> 32 == 0,
        widened_oflags(bits) <= 0xffff_ffff,
        widened_oflags(bits) as i32 == bits,
{
    assert(((bits as u32) as u64) >> 32 == 0) by (bit_vector);
    assert(((bits as u32) as u64) <= 0xffff_ffff) by (bit_vector);
    assert((((bits as u32) as u64) as i32) == bits) by (bit_vector);
}

/// The record's exact byte size, for handing verbatim to the OS entry
/// point.
pub fn open_how_size() -> (r: usize)
    ensures
        r == OPEN_HOW_SIZE,
{
    24
}

/// Populate the fixed-layout request record from the three flag sets:
/// the open flags widened without sign-extension artifacts, the mode
/// and the resolve constraints carried bit-for-bit.
pub fn build_open_how(oflags: OFlags, mode: Mode, resolve: ResolveFlags) -> (r: OpenHow)
    ensures
        r.oflag == widened_oflags(oflags.spec_bits()),
        r.mode == mode.spec_bits() as u64,
        r.resolve == resolve.spec_bits(),
{
    let bits: i32 = oflags.bits();
    let low: u32 = #[verifier::truncate] (bits as u32);
    OpenHow { oflag: low as u64, mode: mode.bits() as u64, resolve: resolve.bits() }
}

/// Interpret the raw return value of the OS entry point. The raw
/// calling convention reports failure as a negative sentinel carrying
/// the error code sign-stripped (a return of `-E` means error `E`),
/// and success as a non-negative fresh resource identifier, which
/// becomes an exclusively owned handle. The bound on `raw` is the
/// machine limit of the handle and error spaces: both are 32-bit, and
/// the OS never returns a value outside them for this call.
pub fn openat2_result(raw: i64) -> (r: Result<OwnedFd, Error>)
    requires
        -0x7fff_ffff <= raw <= 0x7fff_ffff,
    ensures
        raw >= 0 ==> (r matches Ok(fd) && fd.spec_raw_fd() == raw && fd.wf()),
        raw < 0 ==> (r matches Err(e) && e.spec_raw_os_error() == -raw),
{
    if raw < 0 {
        let code: i32 = (-raw) as i32;
        Err(Error::from_raw_os_error(code))
    } else {
        Ok(OwnedFd::from_raw(raw as i32))
    }
}

} // verus!
