use vstd::prelude::*;

use crate::types::{DimId, DimWeight};

verus! {

/// A sparse embedding: parallel sequences of dimension indices and weights.
#[derive(Clone, Debug, Default)]
pub struct SparseVector {
    pub indices: Vec<DimId>,
    pub weights: Vec<DimWeight>,
}

impl SparseVector {
    pub fn new(indices: Vec<DimId>, weights: Vec<DimWeight>) -> (r: SparseVector)
        ensures
            r.indices@ == indices@,
            r.weights@ == weights@,
    {
        SparseVector { indices, weights }
    }
}

} // verus!
