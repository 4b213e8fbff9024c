use std::sync::atomic::AtomicBool;

use segment::quantized_scorer_builder::{EncodedQuery, EncodedVectors, QuantizedScorerBuilder};
use segment::reco_query::{RecoQuery, RecoScore};
use segment::sparse_vector::SparseVector;
use segment::types::{Distance, OperationError, PointOffsetType, ScoreType, VectorType};
use segment::tombstones::Tombstones;
use segment::vectors::{QueryVector, VectorOrSparse};

/// Stores one integer per offset; a query encodes to the sum of its elements.
struct SumCodec {
    points: Vec<i32>,
}

impl EncodedVectors<i32> for SumCodec {
    fn encode_query(&self, query: &VectorType) -> i32 {
        query.iter().map(|x| *x as i32).sum()
    }

    fn score_point(&self, query: &i32, i: PointOffsetType) -> ScoreType {
        query * self.points[i as usize]
    }
}

fn flags(n: usize, set: &[usize]) -> Tombstones {
    let mut t = Tombstones::new(n);
    for i in set {
        t.set(*i, true);
    }
    t
}

#[test]
fn nearest_query_scores_through_codec() {
    let codec = SumCodec { points: vec![1, 2, 3] };
    let pd = flags(3, &[]);
    let vd = flags(3, &[1]);
    let stop = AtomicBool::new(false);
    let distance = Distance::Dot;
    let query = QueryVector::Nearest(VectorOrSparse::Vector(vec![2, 3]));
    let scorer = QuantizedScorerBuilder::new(&codec, query, &pd, &vd, &stop, &distance).build::<i32>().unwrap();
    assert!(matches!(scorer.query, EncodedQuery::Nearest(5)));
    assert_eq!(scorer.score_point(2), RecoScore::Value(15));
    assert!(scorer.check_vector(0));
    assert!(!scorer.check_vector(1));
    assert_eq!(scorer.distance, Distance::Dot);
}

#[test]
fn recommend_query_folds_similarities() {
    let codec = SumCodec { points: vec![1, -1] };
    let pd = flags(2, &[0]);
    let vd = flags(2, &[]);
    let stop = AtomicBool::new(false);
    let distance = Distance::Cosine;
    let query = QueryVector::Recommend(RecoQuery::new(
        vec![VectorOrSparse::Vector(vec![4])],
        vec![VectorOrSparse::Vector(vec![2])],
    ));
    let scorer = QuantizedScorerBuilder::new(&codec, query, &pd, &vd, &stop, &distance).build::<i32>().unwrap();
    assert_eq!(scorer.score_point(0), RecoScore::Value(4));
    assert_eq!(scorer.score_point(1), RecoScore::Value(-4));
    assert!(!scorer.check_vector(0));
    assert!(scorer.check_vector(1));
}

#[test]
fn sparse_query_is_refused() {
    let codec = SumCodec { points: vec![1] };
    let pd = flags(1, &[]);
    let vd = flags(1, &[]);
    let stop = AtomicBool::new(false);
    let distance = Distance::Dot;
    let sparse = VectorOrSparse::Sparse(SparseVector::new(vec![0], vec![1]));
    let query = QueryVector::Nearest(sparse.clone());
    let r = QuantizedScorerBuilder::new(&codec, query, &pd, &vd, &stop, &distance).build::<i32>();
    assert!(matches!(r, Err(OperationError::WrongSparse)));
    let reco = QueryVector::Recommend(RecoQuery::new(vec![VectorOrSparse::Vector(vec![1])], vec![sparse]));
    let r = QuantizedScorerBuilder::new(&codec, reco, &pd, &vd, &stop, &distance).build::<i32>();
    assert!(matches!(r, Err(OperationError::WrongSparse)));
}

#[test]
fn tombstones_track_flags() {
    let mut t = Tombstones::new(3);
    assert_eq!(t.len(), 3);
    assert_eq!(t.count(), 0);
    assert_eq!(t.set(1, true), false);
    assert_eq!(t.set(1, true), true);
    t.push(true);
    assert_eq!(t.len(), 4);
    assert_eq!(t.count(), 2);
    assert!(t.is_set(3));
    assert!(!t.is_set(0));
    assert!(!t.is_set(10));
}
