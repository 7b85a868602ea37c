//! File handles as the C library passes them on Unix-like systems.
use vstd::prelude::*;

verus! {

/// A file handle: a file descriptor.
pub type Type = cty::c_int;

/// The handle of no open file.
pub const NULL: Type = -1;

} // verus!
