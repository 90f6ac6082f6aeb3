//! The instructions: arithmetic, memory, tables, variables and control.

pub mod alu;
pub mod control;
pub mod exec;
pub mod float;
pub mod lanes;
pub mod memory;
pub mod numeric;
pub mod parametric;
pub mod pure;
pub mod reference;
pub mod table;
pub mod trunc_sat;
pub mod variable;
pub mod vector;
