//! Compile-time model of an attribute-driven function-tracing rewrite.
//!
//! A tracing attribute carries a comma-separated list of `role = "..."`
//! entries and decorates a function. The rewrite keeps the function's
//! signature untouched and replaces its body with a fixed sequence of trace
//! statements: print the declared roles, print an entry trace, optionally
//! print the claims of a recognized claims-carrier parameter, run the
//! original body as a value-producing sub-block, print an exit trace with the
//! produced value, and finally produce that value.
//!
//! This crate holds the rewrite's logic over plain data: [`attr`] extracts
//! the ordered role list from the attribute's arguments, [`params`] looks for
//! the claims-carrier parameter, and [`emit`] builds the rewritten function.
//! Turning compiler token streams into this plain data and back is left to a
//! thin unverified front end.

pub mod attr;
pub mod emit;
pub mod laws;
pub mod params;
