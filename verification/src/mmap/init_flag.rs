//! Bits of the options that initializing a memory map takes.
use vstd::prelude::*;
use crate::c::BitFlag;

verus! {

/// Disallow writing to the memory map.
pub const READ_ONLY: BitFlag = 0x01u32;

/// Allow shrinking the size of the mapped file.
pub const ALLOW_SHRINK: BitFlag = 0x02u32;

/// Force the file not to exist, unless `FORCE_EXIST_YES` is also set.
pub const FORCE_EXIST: BitFlag = 0x04u32;

/// Force the file to exist, when `FORCE_EXIST` is also set.
pub const FORCE_EXIST_YES: BitFlag = 0x08u32;

} // verus!
