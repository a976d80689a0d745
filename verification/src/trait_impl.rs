//! The built-in optional capabilities: clone, equality-comparison and
//! debug-formatting, each registrable on a container like any other
//! interface.

pub mod debug;
pub mod try_clone;
pub mod try_partial_eq;
