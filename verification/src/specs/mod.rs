//! Contracts for the types and functions of other crates that the library calls.
//! Verus takes each of them on trust.

pub mod buffers;
pub mod clock;
pub mod codecs;
pub mod strings;
pub mod urls;
