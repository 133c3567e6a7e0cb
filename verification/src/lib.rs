//! Symbolic arithmetic expressions over a generic numeric payload, with a
//! units-of-measure wrapper that enforces dimensional consistency.
pub mod num;
pub mod payload;
pub mod units;
