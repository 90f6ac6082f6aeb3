//! The two stacks of the machine.

pub mod frame;
