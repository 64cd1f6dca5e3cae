//! What the launcher knows about a process it started.

pub mod child;
