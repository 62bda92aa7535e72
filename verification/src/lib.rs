//! Safe file handles for a removable storage volume that is reached through a
//! C-style buffered stream API.
//!
//! The crate separates the decisions of the file layer from the native calls
//! that carry them out. Everything here is plain data: path and mode buffers
//! for the native open call, zero-filled buffers for a whole-file read, and a
//! handle type whose consuming operations make use-after-close impossible. A
//! thin runtime shim owns the actual stream calls and feeds their results
//! back in.

pub mod cbuf;
pub mod fs;
