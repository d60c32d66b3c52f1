//! The engine's hash table, as far as a value needs it.

use vstd::prelude::*;

verus! {

/// A hash table of the engine, known by its address. The table itself stays
/// with the engine.
#[derive(Clone, Copy, Debug, PartialEq, Eq, Structural)]
pub struct ZendHashTable(pub usize);

} // verus!
