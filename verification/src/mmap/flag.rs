//! Bits of the state flags that a memory map records about itself.
use vstd::prelude::*;
use crate::c::BitFlag8;

verus! {

/// The map may not be written to.
pub const READ_ONLY: BitFlag8 = 0x01u8;

/// The map is backed by a secret, unlinked file.
pub const SECRET: BitFlag8 = 0x02u8;

} // verus!
