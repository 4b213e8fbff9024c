use vstd::prelude::*;

use std::sync::atomic::AtomicBool;

use crate::reco_query::{fold_similarities, merge_similarities, RecoQuery, RecoScore};
use crate::tombstones::Tombstones;
use crate::types::{Distance, OperationError, PointOffsetType, ScoreType, VectorElementType, VectorType};
use crate::vectors::{all_dense, QueryVector, VectorData};

verus! {

/// Quantized vectors: compressed copies of the stored vectors that can encode
/// a dense query and score an encoded query against any stored offset.
/// Quantization codecs implement it.
pub trait EncodedVectors<TEncodedQuery> {
    /// The encoding of the dense vector `v`. A codec states its own; the
    /// default leaves it unknown, so no body can be proved against it.
    open spec fn encoded(&self, v: Seq<VectorElementType>) -> TEncodedQuery {
        arbitrary()
    }

    /// The similarity of the encoded query `q` to the vector stored at `i`.
    /// A codec states its own; the default leaves it unknown.
    open spec fn score_of(&self, q: TEncodedQuery, i: PointOffsetType) -> ScoreType {
        arbitrary()
    }

    fn encode_query(&self, query: &VectorType) -> (r: TEncodedQuery)
        ensures
            r == self.encoded(query@),
    ;

    fn score_point(&self, query: &TEncodedQuery, i: PointOffsetType) -> (r: ScoreType)
        ensures
            r == self.score_of(*query, i),
    ;
}

/// The elements of a dense vector; empty for a sparse one.
pub open spec fn dense_elements(v: VectorData) -> Seq<VectorElementType> {
    match v {
        VectorData::Dense(d) => d,
        VectorData::Sparse(_, _) => Seq::empty(),
    }
}

/// `e` is `q` with every dense vector encoded by `storage`.
pub open spec fn encodes<Q, E: EncodedVectors<Q>>(storage: &E, q: QueryVector, e: EncodedQuery<Q>) -> bool {
    match (q, e) {
        (QueryVector::Nearest(v), EncodedQuery::Nearest(eq)) => eq == storage.encoded(dense_elements(v@)),
        (QueryVector::Recommend(rq), EncodedQuery::Recommend(eq)) => {
            &&& eq.positives@.len() == rq.positives@.len()
            &&& eq.negatives@.len() == rq.negatives@.len()
            &&& forall|i: int|
                0 <= i < rq.positives@.len() ==> eq.positives@[i] == storage.encoded(
                    dense_elements(#[trigger] rq.positives@[i]@),
                )
            &&& forall|i: int|
                0 <= i < rq.negatives@.len() ==> eq.negatives@[i] == storage.encoded(
                    dense_elements(#[trigger] rq.negatives@[i]@),
                )
        },
        _ => false,
    }
}

/// The similarities of the encoded queries `qs` to the vector stored at `point`.
pub open spec fn scores_at<Q, E: EncodedVectors<Q>>(storage: &E, qs: Seq<Q>, point: PointOffsetType) -> Seq<ScoreType> {
    qs.map_values(|q: Q| storage.score_of(q, point))
}

/// An encoded query: one target, or a recommendation set.
pub enum EncodedQuery<Q> {
    Nearest(Q),
    Recommend(RecoQuery<Q>),
}

/// Every vector of the query is dense.
pub open spec fn query_is_dense(q: QueryVector) -> bool {
    match q {
        QueryVector::Nearest(v) => v@ is Dense,
        QueryVector::Recommend(rq) => all_dense(rq.positives@) && all_dense(rq.negatives@),
    }
}

/// Encodes each dense vector of `vs`, in order.
fn encode_all<Q, E: EncodedVectors<Q>>(storage: &E, vs: &Vec<VectorType>) -> (r: Vec<Q>)
    ensures
        r@.len() == vs@.len(),
        forall|i: int| 0 <= i < vs@.len() ==> r@[i] == storage.encoded((#[trigger] vs@[i])@),
{
    let mut out: Vec<Q> = Vec::new();
    let mut i: usize = 0;
    while i < vs.len()
        invariant
            0 <= i <= vs@.len(),
            out@.len() == i,
            forall|j: int| 0 <= j < i ==> out@[j] == storage.encoded((#[trigger] vs@[j])@),
        decreases vs@.len() - i,
    {
        out.push(storage.encode_query(&vs[i]));
        i += 1;
    }
    out
}

/// Collects what a scorer over quantized vectors needs.
pub struct QuantizedScorerBuilder<'a, E> {
    pub quantized_storage: &'a E,
    pub query: QueryVector,
    pub point_deleted: &'a Tombstones,
    pub vec_deleted: &'a Tombstones,
    pub is_stopped: &'a AtomicBool,
    pub distance: &'a Distance,
}

/// Scores stored offsets against an encoded query.
pub struct QuantizedRawScorer<'a, Q, E> {
    pub quantized_storage: &'a E,
    pub query: EncodedQuery<Q>,
    pub point_deleted: &'a Tombstones,
    pub vec_deleted: &'a Tombstones,
    pub is_stopped: &'a AtomicBool,
    pub distance: Distance,
}

impl<'a, E> QuantizedScorerBuilder<'a, E> {
    pub fn new(
        quantized_storage: &'a E,
        query: QueryVector,
        point_deleted: &'a Tombstones,
        vec_deleted: &'a Tombstones,
        is_stopped: &'a AtomicBool,
        distance: &'a Distance,
    ) -> (r: Self)
        ensures
            r.quantized_storage == quantized_storage,
            r.query == query,
            r.point_deleted == point_deleted,
            r.vec_deleted == vec_deleted,
            r.is_stopped == is_stopped,
            r.distance == distance,
    {
        Self { quantized_storage, query, point_deleted, vec_deleted, is_stopped, distance }
    }

    /// Narrows the query to dense vectors, encodes it, and binds it to the
    /// quantized vectors and the deletion flags; fails with `WrongSparse` when
    /// any vector of the query is sparse.
    pub fn build<Q>(self) -> (r: Result<QuantizedRawScorer<'a, Q, E>, OperationError>)
        where
            E: EncodedVectors<Q>,
        ensures
            match r {
                Ok(s) => {
                    &&& query_is_dense(self.query)
                    &&& encodes(self.quantized_storage, self.query, s.query)
                    &&& s.quantized_storage == self.quantized_storage
                    &&& s.point_deleted == self.point_deleted
                    &&& s.vec_deleted == self.vec_deleted
                    &&& s.is_stopped == self.is_stopped
                    &&& s.distance == *self.distance
                },
                Err(e) => !query_is_dense(self.query) && e is WrongSparse,
            },
    {
        let quantized_storage = self.quantized_storage;
        self.new_quantized_scorer(quantized_storage)
    }

    fn new_quantized_scorer<Q>(self, quantized_storage: &'a E) -> (r: Result<QuantizedRawScorer<'a, Q, E>, OperationError>)
        where
            E: EncodedVectors<Q>,
        requires
            quantized_storage == self.quantized_storage,
        ensures
            match r {
                Ok(s) => {
                    &&& query_is_dense(self.query)
                    &&& encodes(self.quantized_storage, self.query, s.query)
                    &&& s.quantized_storage == self.quantized_storage
                    &&& s.point_deleted == self.point_deleted
                    &&& s.vec_deleted == self.vec_deleted
                    &&& s.is_stopped == self.is_stopped
                    &&& s.distance == *self.distance
                },
                Err(e) => !query_is_dense(self.query) && e is WrongSparse,
            },
    {
        let Self { quantized_storage: _, query, point_deleted, vec_deleted, is_stopped, distance } = self;
        let encoded = match query {
            QueryVector::Nearest(vector) => {
                let dense = match vector.try_into_dense() {
                    Ok(d) => d,
                    Err(e) => {
                        return Err(e);
                    },
                };
                EncodedQuery::Nearest(quantized_storage.encode_query(&dense))
            },
            QueryVector::Recommend(reco_query) => {
                let dense = match reco_query.try_into_dense() {
                    Ok(q) => q,
                    Err(e) => {
                        return Err(e);
                    },
                };
                let positives = encode_all(quantized_storage, &dense.positives);
                let negatives = encode_all(quantized_storage, &dense.negatives);
                EncodedQuery::Recommend(RecoQuery::new(positives, negatives))
            },
        };
        Ok(QuantizedRawScorer {
            quantized_storage,
            query: encoded,
            point_deleted,
            vec_deleted,
            is_stopped,
            distance: *distance,
        })
    }
}

impl<'a, Q, E: EncodedVectors<Q>> QuantizedRawScorer<'a, Q, E> {
    /// Whether the offset holds a live vector: neither its point nor its
    /// vector is flagged as deleted.
    pub fn check_vector(&self, point: PointOffsetType) -> (r: bool)
        ensures
            r == !((point < self.point_deleted@.len() && self.point_deleted@[point as int]) || (point
                < self.vec_deleted@.len() && self.vec_deleted@[point as int])),
    {
        !self.point_deleted.is_set(point as usize) && !self.vec_deleted.is_set(point as usize)
    }

    /// The similarities of the encoded queries `qs` to the vector at `point`.
    fn scores(&self, qs: &Vec<Q>, point: PointOffsetType) -> (r: Vec<ScoreType>)
        ensures
            r@ == scores_at(self.quantized_storage, qs@, point),
    {
        let mut out: Vec<ScoreType> = Vec::new();
        let mut i: usize = 0;
        while i < qs.len()
            invariant
                0 <= i <= qs@.len(),
                out@ == scores_at(self.quantized_storage, qs@.take(i as int), point),
            decreases qs@.len() - i,
        {
            out.push(self.quantized_storage.score_point(&qs[i], point));
            i += 1;
            assert(out@ =~= scores_at(self.quantized_storage, qs@.take(i as int), point));
        }
        assert(qs@.take(qs@.len() as int) =~= qs@);
        out
    }

    /// The score of the stored vector at `point`: the similarity to the target,
    /// or the recommendation fold over the similarities to the positives and
    /// the negatives. Deleted offsets are scored too.
    pub fn score_point(&self, point: PointOffsetType) -> (r: RecoScore)
        ensures
            match self.query {
                EncodedQuery::Nearest(q) => r == RecoScore::Value(self.quantized_storage.score_of(q, point) as i64),
                EncodedQuery::Recommend(rq) => r@ == fold_similarities(
                    scores_at(self.quantized_storage, rq.positives@, point),
                    scores_at(self.quantized_storage, rq.negatives@, point),
                ),
            },
    {
        match &self.query {
            EncodedQuery::Nearest(q) => RecoScore::Value(self.quantized_storage.score_point(q, point) as i64),
            EncodedQuery::Recommend(rq) => {
                let positive_similarities = self.scores(&rq.positives, point);
                let negative_similarities = self.scores(&rq.negatives, point);
                merge_similarities(&positive_similarities, &negative_similarities)
            },
        }
    }
}

} // verus!
