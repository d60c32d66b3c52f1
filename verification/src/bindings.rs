//! What the Zend engine publishes about itself: the constants of its memory
//! manager, the sizes of the structures this crate mirrors, and the handles by
//! which its objects are known. A new engine version is taken up here.
//!
//! The sizes are those of PHP 8.0 on a 64-bit target without thread safety.

use vstd::prelude::*;

verus! {

/// The boundary to which the engine's memory manager rounds every size.
pub const ZEND_MM_ALIGNMENT: usize = 8;

/// The mask that clears the bits below `ZEND_MM_ALIGNMENT`.
pub const ZEND_MM_ALIGNMENT_MASK: usize = !(ZEND_MM_ALIGNMENT - 1);

/// The size in bytes of the engine's `zend_execute_data`, the header of a call frame.
pub const ZEND_EXECUTE_DATA_SIZE: usize = 80;

/// The size in bytes of the engine's `zval`.
pub const ZVAL_SIZE: usize = 16;

/// An object of the engine, known by its address.
#[derive(Clone, Copy, Debug, PartialEq, Eq, Structural)]
pub struct ZendObject(pub usize);

/// A resource of the engine, known by its address.
#[derive(Clone, Copy, Debug, PartialEq, Eq, Structural)]
pub struct ZendResource(pub usize);

/// A class of the engine, known by the address of its entry.
#[derive(Clone, Copy, Debug, PartialEq, Eq, Structural)]
pub struct ZendClassEntry(pub usize);

} // verus!
