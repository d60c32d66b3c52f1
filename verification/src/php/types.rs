//! The types of values that the engine holds.

pub mod array;
pub mod long;
pub mod string;
pub mod zval;
