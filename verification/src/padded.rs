//! Contains [`Padded`].

use vstd::prelude::*;

verus! {

/// Marks a value that should occupy a cache-line-sized region of its own, so
/// that a store to one field of the shared block cannot invalidate a line the
/// peer is concurrently polling. The wrapper records that intent in the type;
/// the alignment attribute itself is applied where the block is allocated.
pub struct Padded<T> {
    /// Inner data
    pub i: T,
}

impl<T> Padded<T> {
    /// Wraps a value.
    pub fn new(i: T) -> (r: Padded<T>)
        ensures
            r.i == i,
    {
        Padded { i }
    }
}

} // verus!
