//! A WebAssembly interpreter: binary decoder, validator, instance model and
//! stack machine, with contracts on every function.

pub mod binary;
pub mod execution;
