//! Small text utilities: a line decorator, the decisions of a file appender
//! and of a file reader, and the decoding of wide-character buffers that a
//! platform call has filled.
//!
//! Nothing in this crate touches a file or the operating system. The caller
//! does the outside work and hands in what came back; every function here
//! says in its contract what it returns for each such value.

pub mod decorator;
pub mod error;
pub mod reader;
pub mod wide;
pub mod appender;
pub mod disk;
