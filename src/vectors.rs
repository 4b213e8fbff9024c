use vstd::prelude::*;

use crate::reco_query::RecoQuery;
use crate::sparse_vector::SparseVector;
use crate::types::{names_unique, OperationError, VectorElementType, VectorType};

verus! {

/// What a vector holds, as mathematical sequences.
pub enum VectorData {
    Dense(Seq<VectorElementType>),
    /// Indices, then weights.
    Sparse(Seq<u32>, Seq<u32>),
}

impl VectorData {
    /// Logical length: the element count of a dense vector, the index count of
    /// a sparse one.
    pub open spec fn len(self) -> nat {
        match self {
            VectorData::Dense(v) => v.len(),
            VectorData::Sparse(i, _) => i.len(),
        }
    }
}

impl View for SparseVector {
    type V = VectorData;

    open spec fn view(&self) -> VectorData {
        VectorData::Sparse(self.indices@, self.weights@)
    }
}

/// An owned vector, dense or sparse.
#[derive(Debug, Clone)]
pub enum VectorOrSparse {
    Vector(VectorType),
    Sparse(SparseVector),
}

/// A borrowed view of a vector, dense or sparse.
#[derive(Clone, Copy)]
pub enum VectorOrSparseRef<'a> {
    Vector(&'a [VectorElementType]),
    Sparse(&'a SparseVector),
}

impl View for VectorOrSparse {
    type V = VectorData;

    open spec fn view(&self) -> VectorData {
        match self {
            VectorOrSparse::Vector(v) => VectorData::Dense(v@),
            VectorOrSparse::Sparse(s) => s@,
        }
    }
}

impl<'a> View for VectorOrSparseRef<'a> {
    type V = VectorData;

    open spec fn view(&self) -> VectorData {
        match self {
            VectorOrSparseRef::Vector(v) => VectorData::Dense(v@),
            VectorOrSparseRef::Sparse(s) => s@,
        }
    }
}

/// An element-for-element copy of a dense vector.
pub fn copy_dense(v: &[VectorElementType]) -> (r: VectorType)
    ensures
        r@ == v@,
{
    let mut out: VectorType = Vec::new();
    let mut i: usize = 0;
    while i < v.len()
        invariant
            0 <= i <= v@.len(),
            out@ == v@.take(i as int),
        decreases v@.len() - i,
    {
        out.push(v[i]);
        i += 1;
        assert(out@ == v@.take(i as int));
    }
    assert(v@.take(v@.len() as int) == v@);
    out
}

/// An element-for-element copy of a sparse vector.
pub fn copy_sparse(v: &SparseVector) -> (r: SparseVector)
    ensures
        r@ == v@,
{
    SparseVector::new(copy_dense(v.indices.as_slice()), copy_dense(v.weights.as_slice()))
}

impl<'a> VectorOrSparseRef<'a> {
    /// An owned copy with the same kind and contents.
    pub fn to_owned(self) -> (r: VectorOrSparse)
        ensures
            r@ == self@,
    {
        match self {
            VectorOrSparseRef::Vector(v) => VectorOrSparse::Vector(copy_dense(v)),
            VectorOrSparseRef::Sparse(v) => VectorOrSparse::Sparse(copy_sparse(v)),
        }
    }

    pub fn len(&self) -> (r: usize)
        ensures
            r == self@.len(),
    {
        match self {
            VectorOrSparseRef::Vector(v) => v.len(),
            VectorOrSparseRef::Sparse(v) => v.indices.len(),
        }
    }

    /// The dense elements, or `WrongSparse` for a sparse vector.
    pub fn try_as_dense(self) -> (r: Result<&'a [VectorElementType], OperationError>)
        ensures
            match self@ {
                VectorData::Dense(d) => r matches Ok(v) && v@ == d,
                VectorData::Sparse(_, _) => r matches Err(OperationError::WrongSparse),
            },
    {
        match self {
            VectorOrSparseRef::Vector(v) => Ok(v),
            VectorOrSparseRef::Sparse(_) => Err(OperationError::WrongSparse),
        }
    }

    /// The sparse vector, or `WrongSparse` for a dense vector.
    pub fn try_as_sparse(self) -> (r: Result<&'a SparseVector, OperationError>)
        ensures
            match self@ {
                VectorData::Dense(_) => r matches Err(OperationError::WrongSparse),
                VectorData::Sparse(_, _) => r matches Ok(v) && v@ == self@,
            },
    {
        match self {
            VectorOrSparseRef::Vector(_) => Err(OperationError::WrongSparse),
            VectorOrSparseRef::Sparse(v) => Ok(v),
        }
    }
}

impl VectorOrSparse {
    /// A borrowed view of this vector.
    pub fn as_vec_ref(&self) -> (r: VectorOrSparseRef<'_>)
        ensures
            r@ == self@,
    {
        match self {
            VectorOrSparse::Vector(v) => VectorOrSparseRef::Vector(v.as_slice()),
            VectorOrSparse::Sparse(v) => VectorOrSparseRef::Sparse(v),
        }
    }

    pub fn len(&self) -> (r: usize)
        ensures
            r == self@.len(),
    {
        match self {
            VectorOrSparse::Vector(v) => v.len(),
            VectorOrSparse::Sparse(v) => v.indices.len(),
        }
    }

    /// The dense vector, or `WrongSparse` for a sparse vector.
    pub fn try_into_dense(self) -> (r: Result<VectorType, OperationError>)
        ensures
            match self@ {
                VectorData::Dense(d) => r matches Ok(v) && v@ == d,
                VectorData::Sparse(_, _) => r matches Err(OperationError::WrongSparse),
            },
    {
        match self {
            VectorOrSparse::Vector(v) => Ok(v),
            VectorOrSparse::Sparse(_) => Err(OperationError::WrongSparse),
        }
    }

    /// The sparse vector, or `WrongSparse` for a dense vector.
    pub fn try_into_sparse(self) -> (r: Result<SparseVector, OperationError>)
        ensures
            match self@ {
                VectorData::Dense(_) => r matches Err(OperationError::WrongSparse),
                VectorData::Sparse(_, _) => r matches Ok(v) && v@ == self@,
            },
    {
        match self {
            VectorOrSparse::Vector(_) => Err(OperationError::WrongSparse),
            VectorOrSparse::Sparse(v) => Ok(v),
        }
    }
}

/// Name of the vector field used when none is given.
pub const DEFAULT_VECTOR_NAME: &'static str = "";

/// The vectors of one point, by field name, in insertion order.
#[derive(Clone, Debug)]
pub struct NamedVectors {
    pub entries: Vec<(String, VectorOrSparse)>,
}

impl NamedVectors {
    /// Each field occurs once.
    pub open spec fn wf(&self) -> bool {
        names_unique(self.entries@)
    }
}

/// Names carried over one for one keep their uniqueness.
pub proof fn lemma_names_transfer<A, B>(a: Seq<(String, A)>, b: Seq<(String, B)>)
    requires
        names_unique(a),
        a.len() == b.len(),
        forall|i: int| 0 <= i < a.len() ==> (#[trigger] a[i]).0@ == b[i].0@,
    ensures
        names_unique(b),
{
    assert forall|i: int, j: int| 0 <= i < j < b.len() implies (#[trigger] b[i]).0@ != (#[trigger] b[j]).0@ by {
        assert(a[i].0@ == b[i].0@ && a[j].0@ == b[j].0@);
    }
}

/// The vectors of a point that has only the default field, holding `vec`.
pub fn default_vector(vec: VectorType) -> (r: NamedVectors)
    ensures
        r.entries@.len() == 1,
        r.entries@[0].0@ == DEFAULT_VECTOR_NAME@,
        r.entries@[0].1@ == VectorData::Dense(vec@),
{
    let mut entries: Vec<(String, VectorOrSparse)> = Vec::new();
    entries.push((DEFAULT_VECTOR_NAME.to_owned(), VectorOrSparse::Vector(vec)));
    NamedVectors { entries }
}

/// Like `default_vector`, from a borrowed slice, which is copied.
pub fn only_default_vector(vec: &[VectorElementType]) -> (r: NamedVectors)
    ensures
        r.entries@.len() == 1,
        r.entries@[0].0@ == DEFAULT_VECTOR_NAME@,
        r.entries@[0].1@ == VectorData::Dense(vec@),
{
    default_vector(copy_dense(vec))
}

/// A query: one target vector, or a recommendation set.
#[derive(Debug, Clone)]
pub enum QueryVector {
    Nearest(VectorOrSparse),
    Recommend(RecoQuery<VectorOrSparse>),
}

/// Every vector of `s` is dense.
pub open spec fn all_dense(s: Seq<VectorOrSparse>) -> bool {
    forall|i: int| 0 <= i < s.len() ==> (#[trigger] s[i])@ is Dense
}

/// `d` holds, in order, the elements of the dense vectors `s`.
pub open spec fn dense_parts(s: Seq<VectorOrSparse>, d: Seq<VectorType>) -> bool {
    &&& d.len() == s.len()
    &&& forall|i: int| 0 <= i < s.len() ==> (#[trigger] s[i])@ == VectorData::Dense(d[i]@)
}

/// Narrows each vector of `v` to a dense vector, or fails with `WrongSparse`
/// when one of them is sparse.
fn all_into_dense(v: Vec<VectorOrSparse>) -> (r: Result<Vec<VectorType>, OperationError>)
    ensures
        match r {
            Ok(d) => all_dense(v@) && dense_parts(v@, d@),
            Err(e) => !all_dense(v@) && e is WrongSparse,
        },
{
    let ghost orig = v@;
    let mut rest = v;
    let mut out: Vec<VectorType> = Vec::new();
    while rest.len() > 0
        invariant
            orig == v@,
            out@.len() + rest@.len() == orig.len(),
            rest@ == orig.skip(out@.len() as int),
            dense_parts(orig.take(out@.len() as int), out@),
        decreases rest@.len(),
    {
        let ghost k = out@.len() as int;
        let x = rest.remove(0);
        assert(x == orig[k]);
        match x.try_into_dense() {
            Ok(d) => {
                out.push(d);
                assert(orig.take(k + 1) =~= orig.take(k).push(orig[k]));
            },
            Err(e) => {
                assert(!(orig[k]@ is Dense));
                return Err(e);
            },
        }
    }
    assert(orig.take(orig.len() as int) =~= orig);
    Ok(out)
}

/// Building a union from a dense vector keeps its elements, and building one
/// from a sparse vector keeps its indices and weights in order; narrowing
/// (`try_into_dense`, `try_into_sparse`) hands back exactly the view.
pub proof fn lemma_union_round_trip(v: VectorType, s: SparseVector)
    ensures
        VectorOrSparse::Vector(v)@ == VectorData::Dense(v@),
        VectorOrSparse::Sparse(s)@ == VectorData::Sparse(s.indices@, s.weights@),
{
}

impl RecoQuery<VectorOrSparse> {
    /// The same query over dense vectors, or `WrongSparse` when any positive or
    /// negative is sparse.
    pub fn try_into_dense(self) -> (r: Result<RecoQuery<VectorType>, OperationError>)
        ensures
            match r {
                Ok(q) => all_dense(self.positives@) && all_dense(self.negatives@) && dense_parts(
                    self.positives@,
                    q.positives@,
                ) && dense_parts(self.negatives@, q.negatives@),
                Err(e) => !(all_dense(self.positives@) && all_dense(self.negatives@)) && e is WrongSparse,
            },
    {
        let positives = match all_into_dense(self.positives) {
            Ok(p) => p,
            Err(e) => {
                return Err(e);
            },
        };
        let negatives = match all_into_dense(self.negatives) {
            Ok(n) => n,
            Err(e) => {
                return Err(e);
            },
        };
        Ok(RecoQuery::new(positives, negatives))
    }
}

} // verus!
