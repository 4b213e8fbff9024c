use vstd::prelude::*;

verus! {

/// Zero-based, gap-free identifier of a vector inside one segment.
pub type PointOffsetType = u32;

/// A similarity score computed between two vectors.
pub type ScoreType = i32;

/// One element of a dense vector: the bit pattern of a 32-bit float.
pub type VectorElementType = u32;

/// A dense vector.
pub type VectorType = Vec<VectorElementType>;

/// Index of a dimension in a sparse vector.
pub type DimId = u32;

/// Weight of a dimension in a sparse vector: the bit pattern of a 32-bit float.
pub type DimWeight = u32;

/// The similarity metric declared for a vector field.
#[derive(Clone, Copy, Debug, PartialEq, Eq, Structural)]
pub enum Distance {
    Cosine,
    Euclid,
    Dot,
    Manhattan,
}

/// The declared shape of one named vector field of a segment.
#[derive(Clone, Copy, Debug, PartialEq, Eq, Structural)]
pub struct VectorDataConfig {
    /// Expected number of elements of each vector.
    pub size: usize,
    /// Metric used to compare vectors of this field.
    pub distance: Distance,
}

/// No two entries of `s` share a name.
pub open spec fn names_unique<T>(s: Seq<(String, T)>) -> bool {
    forall|i: int, j: int| 0 <= i < j < s.len() ==> (#[trigger] s[i]).0@ != (#[trigger] s[j]).0@
}

/// The declared vector fields of a segment, by name.
#[derive(Clone, Debug)]
pub struct SegmentConfig {
    pub vector_data: Vec<(String, VectorDataConfig)>,
}

impl SegmentConfig {
    /// Each field is declared once.
    pub open spec fn wf(&self) -> bool {
        names_unique(self.vector_data@)
    }
}

/// Errors returned by the operations of this library.
#[derive(Clone, Debug)]
pub enum OperationError {
    /// A vector field name that the segment does not declare.
    VectorNameNotExists { received_name: String },
    /// A vector whose length differs from the declared dimensionality.
    WrongVector { expected_dim: usize, received_dim: usize },
    /// A dense vector where a sparse one was expected, or the reverse.
    WrongSparse,
    /// The operation observed an external stop signal.
    Cancelled { description: String },
}

} // verus!
