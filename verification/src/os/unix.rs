//! Process control with signals and process groups.

pub mod process;
