//! Verified core of a Rust interface to the SSC systems library: memory
//! quantities, byte-slice operations, memory-map bookkeeping and the
//! numeric types shared with the C side.
pub mod c;
pub mod mem;
pub mod mmap;
pub mod op;
pub mod print;
