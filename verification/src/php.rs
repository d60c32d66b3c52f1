//! Types and rules for the values and call frames of the PHP runtime.

pub mod alignment;
pub mod execution_data;
pub mod invoker;
pub mod types;
