//! The engine's integer.

use vstd::prelude::*;

verus! {

/// The integer of the engine: a signed machine word.
pub type ZendLong = i64;

} // verus!
