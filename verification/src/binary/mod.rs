//! The binary module format: LEB128, the byte reader, the typed module and
//! its decoder, encoder and validator.

pub mod decode;
pub mod encode;
pub mod errors;
pub mod instruction;
pub mod leb128;
pub mod module;
pub mod reader;
pub mod round_trip;
pub mod round_trip_code;
pub mod round_trip_expr;
pub mod round_trip_module;
pub mod section;
pub mod types;
pub mod validate;
