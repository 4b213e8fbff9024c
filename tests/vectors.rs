use segment::reco_query::RecoQuery;
use segment::sparse_vector::SparseVector;
use segment::types::OperationError;
use segment::vectors::{default_vector, only_default_vector, VectorOrSparse, VectorOrSparseRef};

fn bits(v: &[f32]) -> Vec<u32> {
    v.iter().map(|x| x.to_bits()).collect()
}

#[test]
fn dense_round_trip() {
    let v = bits(&[1.0, -2.5, 0.0]);
    let union = VectorOrSparse::Vector(v.clone());
    let owned = union.as_vec_ref().to_owned();
    assert_eq!(owned.try_into_dense().unwrap(), v);
}

#[test]
fn sparse_round_trip_keeps_order() {
    let s = SparseVector::new(vec![9, 2, 5], bits(&[0.5, 1.5, -1.0]));
    let union = VectorOrSparse::Sparse(s.clone());
    let back = union.as_vec_ref().to_owned().try_into_sparse().unwrap();
    assert_eq!(back.indices, vec![9, 2, 5]);
    assert_eq!(back.weights, s.weights);
}

#[test]
fn narrowing_to_wrong_kind_fails() {
    let dense = VectorOrSparse::Vector(bits(&[1.0]));
    assert!(matches!(dense.try_into_sparse(), Err(OperationError::WrongSparse)));
    let sparse = VectorOrSparse::Sparse(SparseVector::new(vec![1], bits(&[1.0])));
    assert!(matches!(sparse.try_into_dense(), Err(OperationError::WrongSparse)));
    let s = SparseVector::new(vec![], vec![]);
    assert!(matches!(VectorOrSparseRef::Sparse(&s).try_as_dense(), Err(OperationError::WrongSparse)));
    let d = bits(&[2.0]);
    assert!(matches!(VectorOrSparseRef::Vector(&d).try_as_sparse(), Err(OperationError::WrongSparse)));
}

#[test]
fn logical_length() {
    let d = bits(&[1.0, 2.0, 3.0, 4.0]);
    assert_eq!(VectorOrSparseRef::Vector(&d).len(), 4);
    let s = SparseVector::new(vec![1, 7], bits(&[1.0, 2.0]));
    assert_eq!(VectorOrSparseRef::Sparse(&s).len(), 2);
    assert_eq!(VectorOrSparse::Sparse(s).len(), 2);
}

#[test]
fn reco_query_to_dense() {
    let q = RecoQuery::new(
        vec![VectorOrSparse::Vector(bits(&[1.0]))],
        vec![VectorOrSparse::Vector(bits(&[2.0])), VectorOrSparse::Vector(bits(&[3.0]))],
    );
    let dense = q.try_into_dense().unwrap();
    assert_eq!(dense.positives, vec![bits(&[1.0])]);
    assert_eq!(dense.negatives, vec![bits(&[2.0]), bits(&[3.0])]);

    let mixed = RecoQuery::new(
        vec![VectorOrSparse::Vector(bits(&[1.0]))],
        vec![VectorOrSparse::Sparse(SparseVector::new(vec![0], bits(&[1.0])))],
    );
    assert!(matches!(mixed.try_into_dense(), Err(OperationError::WrongSparse)));
}

#[test]
fn default_vectors() {
    let v = bits(&[1.0, 2.0]);
    let named = default_vector(v.clone());
    assert_eq!(named.entries.len(), 1);
    assert_eq!(named.entries[0].0, "");
    assert_eq!(named.entries[0].1.clone().try_into_dense().unwrap(), v);
    let copied = only_default_vector(&v);
    assert_eq!(copied.entries[0].1.clone().try_into_dense().unwrap(), v);
}
