//! A search facade over a one-shot, callback-driven block matching engine.
//!
//! The engine itself (compiling a pattern, allocating scratch space, scanning a
//! buffer) lives outside this library. What lives here is the logic that turns
//! its single-match reports into matches, non-overlapping match sequences,
//! split pieces and replacements, together with the flags and error codes that
//! the engine speaks in.
pub mod constants;
pub mod error;
pub mod options;
pub mod search;
pub mod spans;
