//! Modes of printing bytes.
use vstd::prelude::*;

verus! {

/// Print bytes in hexadecimal.
pub const MODE_HEX: u8 = 0x01u8;
/// Print bytes in binary.
pub const MODE_BIN: u8 = 0x02u8;
/// Print the prefix, `0x` or `0b`.
pub const MODE_PREFIX: u8 = 0x04u8;
/// Print a newline after the formatted output.
pub const MODE_NEWLINE: u8 = 0x08u8;

} // verus!
