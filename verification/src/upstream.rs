//! Content-model builders for upstream library types.
//!
//! Standard types take part in encoding through per-type decompositions:
//! primitives become elements, options and results become choices,
//! durations and socket addresses become records, collections become
//! arrays of their elements.  The builders in this module construct
//! exactly those decompositions from plain values.

use vstd::prelude::*;

pub mod alloc_impls;
pub mod core_impls;
pub mod primitive_impls;
pub mod std_impls;

use crate::content::Value;

verus! {

/// One key/value pair of a map, decomposed as a two-field record.
pub struct Entry {
    pub key: Value,
    pub val: Value,
}

} // verus!
