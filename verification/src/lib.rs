//! Small verified building blocks for console-oriented demo programs:
//! a pass-through-or-reduce arithmetic check, decimal rendering of
//! integers, rendering of a tagged-union message to its report line,
//! and simple record types with a verified mutator and summary line.

pub mod message;
pub mod numbers;
pub mod records;
pub mod text;
