//! A minimal, safe layer over a raw OS resource-acquisition call:
//! an errno-style error wrapper and the pure logic of an
//! `openat2`-style open request (ABI record construction and raw
//! result interpretation).

pub mod fd;
pub mod fs;
pub mod io;
