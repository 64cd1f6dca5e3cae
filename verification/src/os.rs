//! Process control, one module per family of operating systems.

pub mod command;
pub mod unix;
pub mod windows;
