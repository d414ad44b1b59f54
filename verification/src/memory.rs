//! Memories of the Mic-1: plain word memories and the main memory with its
//! memory-mapped character devices.
pub mod immutable;
pub mod io_memory;
pub mod mutable;
pub mod traits;
