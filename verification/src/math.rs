//! Points of a fixed number of coordinates.

use vstd::prelude::*;

verus! {

/// A point with `DIM` coordinates of type `U`.
pub trait Point<U, const DIM: usize> {
    /// The coordinates in their order.
    spec fn coordinates(&self) -> Seq<U>;

    /// The coordinates in their order.
    fn to_array(&self) -> (array: [U; DIM])
        ensures
            array@ == self.coordinates(),
    ;
}

} // verus!
