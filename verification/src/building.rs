//! Read-only building configuration queried by the driver.

use vstd::prelude::*;

verus! {

/// The building configuration, created once before a run. The driver reads
/// from it only which state element carries the comfort-relevant quantity
/// that the occupant's immediate satisfaction signal is taken from.
#[derive(Clone, Copy, PartialEq, Eq, Structural, Debug)]
pub struct Building {
    /// Index of the state element holding the comfort-relevant quantity.
    pub comfort_element: usize,
}

impl Building {
    /// The configuration is valid for a store of `n_elements` elements when
    /// the comfort element exists in it.
    pub open spec fn valid_for(self, n_elements: int) -> bool {
        self.comfort_element < n_elements
    }
}

} // verus!
