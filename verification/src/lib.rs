//! A small command-line text utility: it echoes a string in upper or lower
//! case, or with the order of its space-separated words reversed.
//!
//! [`report::process`] takes an argument list and returns what to write and
//! the code to exit with; the modules below it hold the steps on the way.

pub mod dispatch;
pub mod invocation;
pub mod parser;
pub mod report;
pub mod surface;
pub mod text;
