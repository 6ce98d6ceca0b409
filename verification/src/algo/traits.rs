//! The roles that items and bins play in partitioning.

use std::collections::HashMap;
use vstd::prelude::*;

verus! {

/// Implementor is used as a bin for storing items.
pub trait PartitionBin {
    type Size;

    type BinId;

    /// Try to fill the bin with an item of a certain size.
    ///
    /// Return true on succeed, false on failure
    fn fill(&mut self, item_size: Self::Size) -> bool;

    /// Try to release an item of a certain size from the bin
    ///
    /// Return true on succeed, false on failure
    fn release(&mut self, item_size: Self::Size) -> bool;

    /// Get the id of this bin.
    fn bin_id(&self) -> Self::BinId;
}

/// Implementor stores multiple items for partition.
pub trait Partition<'a, T, I> where T: 'a + PartitionBin, I: Iterator<Item = &'a mut T> {
    type ItemId;

    /// Partition the stored items into bins.
    ///
    /// Return the mapping from the item id to bin id.
    fn partition(&self, bins: I) -> Option<HashMap<Self::ItemId, <T as PartitionBin>::BinId>>;
}

/// Implementor carries a weight that partitioning takes into account.
pub trait Weighted {
    type Weight: Copy;

    /// The weight, as the implementor defines it.
    spec fn weight(&self) -> Self::Weight;

    /// Get the weight.
    fn get_weight(&self) -> (w: Self::Weight)
        ensures
            w == self.weight(),
    ;
}

/// A type with a least value.
pub trait Min: Sized {
    fn minimum() -> Self;
}

/// A type with a greatest value.
pub trait Max: Sized {
    fn maximum() -> Self;
}

impl Min for u64 {
    fn minimum() -> (r: Self)
        ensures
            r == 0,
    {
        u64::MIN
    }
}

impl Max for u64 {
    fn maximum() -> (r: Self)
        ensures
            r == u64::MAX,
    {
        u64::MAX
    }
}

} // verus!
