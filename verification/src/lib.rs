//! Guest-execution control core of a binary-only fuzzing harness.
//!
//! The crate holds the decisions of the harness: where the iteration
//! checkpoint lies, what a register restoration writes, how intercepted
//! system calls are answered from the candidate input, how an emulator stop is
//! classified, and which instrumentation pipeline a worker runs. The emulator
//! and the fuzzing engine stay outside: every function here takes what they
//! reported as plain values and returns what they are to do next.

pub mod client;
pub mod feedbacks;
pub mod guest;
pub mod harness;
pub mod modules;
pub mod options;
