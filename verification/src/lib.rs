//! A minimal user-space system-call tracer core.
//!
//! The crate spawns a target program under kernel trace control, stops it at
//! every system-call boundary, decodes the call number and leading argument
//! words from a register snapshot, and reports the decoded events together
//! with the terminal outcome of the traced process.

pub mod process;
pub mod registers;
pub mod syscalls;
pub mod tracer;
