//! Status codes of initializing a memory map.
use vstd::prelude::*;
use crate::c::CodeError;

verus! {

pub const OK: CodeError = 0i32;
/// The file could not be forced not to exist.
pub const ERR_FILE_EXIST_NO: CodeError = -1i32;
/// The file could not be forced to exist.
pub const ERR_FILE_EXIST_YES: CodeError = -2i32;
/// Read-only could not be enforced.
pub const ERR_READ_ONLY: CodeError = -3i32;
/// Shrinking was attempted while disallowed.
pub const ERR_SHRINK: CodeError = -4i32;
/// No size was given.
pub const ERR_NO_SIZE: CodeError = -5i32;
/// The file path could not be opened.
pub const ERR_OPEN_FILEPATH: CodeError = -6i32;
/// No file could be created at the file path.
pub const ERR_CREATE_FILEPATH: CodeError = -7i32;
/// The size of the file could not be read.
pub const ERR_GET_FILE_SIZE: CodeError = -8i32;
/// The size of the file could not be set.
pub const ERR_SET_FILE_SIZE: CodeError = -9i32;
/// The file could not be mapped into memory.
pub const ERR_MAP: CodeError = -10i32;
/// A secret map could not be initialized.
pub const ERR_SECRET: CodeError = -11i32;
/// The map held before could not be released; never reported by the C side.
pub const ERR_NULLIFY: CodeError = -12i32;

} // verus!
