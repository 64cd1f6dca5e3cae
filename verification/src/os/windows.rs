//! Process control with process handles and console control events.

pub mod process;
