//! Mount-IO demo library.
//!
//! Three numeric operations exercise a host's file mounts: operation `a`
//! combines the contents of two mounted files into a signed result that is
//! always negative, operation `c` yields the payload for the output mount and
//! the code reported after writing it, and fixed sentinel codes stand for the
//! three ways a mount can fail.  All file handling itself lives outside this
//! library; the operations here work on the bytes a caller hands them.

pub mod hash;
pub mod ops;
