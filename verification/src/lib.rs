//! The Zend engine's dynamic value and its call frames, without the engine.
//!
//! `php::types::zval` holds the value, `php::execution_data` the frame of a
//! call and the place of its arguments, `php::alignment` the rounding that this
//! place is computed with, and `php::invoker` the steps of calling a value as
//! a function. `bindings` holds what is taken over from the engine as it is.
//!
//! Nothing here calls the engine. Where the engine has to act, a function
//! returns what to ask of it, and another takes its answer.

pub mod bindings;
pub mod php;
