use std::sync::atomic::AtomicBool;

use segment::common::{cancelled_if, check_named_vectors, check_query_vectors, check_stopped, check_vector, check_vector_name};
use segment::reco_query::RecoQuery;
use segment::sparse_vector::SparseVector;
use segment::types::{Distance, OperationError, SegmentConfig, VectorDataConfig};
use segment::vectors::{NamedVectors, QueryVector, VectorOrSparse};

fn config() -> SegmentConfig {
    SegmentConfig {
        vector_data: vec![
            ("".to_string(), VectorDataConfig { size: 3, distance: Distance::Dot }),
            ("image".to_string(), VectorDataConfig { size: 2, distance: Distance::Cosine }),
        ],
    }
}

fn dense(n: usize) -> VectorOrSparse {
    VectorOrSparse::Vector(vec![1.0f32.to_bits(); n])
}

#[test]
fn known_and_unknown_names() {
    assert!(check_vector_name("image", &config()).is_ok());
    assert!(check_vector_name("", &config()).is_ok());
    match check_vector_name("text", &config()) {
        Err(OperationError::VectorNameNotExists { received_name }) => assert_eq!(received_name, "text"),
        other => panic!("unexpected outcome {:?}", other),
    }
}

#[test]
fn each_field_uses_its_own_size() {
    assert!(check_vector("image", &QueryVector::Nearest(dense(2)), &config()).is_ok());
    assert!(check_vector("image", &QueryVector::Nearest(dense(3)), &config()).is_err());
    assert!(check_vector("", &QueryVector::Nearest(dense(3)), &config()).is_ok());
}

#[test]
fn dimension_mismatch_is_rejected() {
    for n in [0usize, 1, 2, 4, 1000] {
        match check_vector("", &QueryVector::Nearest(dense(n)), &config()) {
            Err(OperationError::WrongVector { expected_dim, received_dim }) => {
                assert_eq!(expected_dim, 3);
                assert_eq!(received_dim, n);
            }
            other => panic!("unexpected outcome {:?}", other),
        }
    }
    assert!(check_vector("", &QueryVector::Nearest(dense(3)), &config()).is_ok());
}

#[test]
fn sparse_vectors_are_checked_by_index_count() {
    let s = VectorOrSparse::Sparse(SparseVector::new(vec![1, 2], vec![0, 0]));
    assert!(check_vector("image", &QueryVector::Nearest(s.clone()), &config()).is_ok());
    assert!(check_vector("", &QueryVector::Nearest(s), &config()).is_err());
}

#[test]
fn recommendation_reports_first_mismatch() {
    let q = QueryVector::Recommend(RecoQuery::new(vec![dense(2), dense(5)], vec![dense(7)]));
    match check_vector("image", &q, &config()) {
        Err(OperationError::WrongVector { expected_dim: 2, received_dim }) => assert_eq!(received_dim, 5),
        other => panic!("unexpected outcome {:?}", other),
    }
    let ok = QueryVector::Recommend(RecoQuery::new(vec![dense(2)], vec![dense(2)]));
    assert!(check_vector("image", &ok, &config()).is_ok());
}

#[test]
fn several_queries() {
    let a = QueryVector::Nearest(dense(3));
    let b = QueryVector::Nearest(dense(1));
    assert!(check_query_vectors("", &[&a, &a], &config()).is_ok());
    assert!(matches!(
        check_query_vectors("", &[&a, &b], &config()),
        Err(OperationError::WrongVector { expected_dim: 3, received_dim: 1 })
    ));
    assert!(matches!(
        check_query_vectors("nope", &[&a], &config()),
        Err(OperationError::VectorNameNotExists { .. })
    ));
}

#[test]
fn named_vectors() {
    let good = NamedVectors { entries: vec![("".to_string(), dense(3)), ("image".to_string(), dense(2))] };
    assert!(check_named_vectors(&good, &config()).is_ok());
    let bad = NamedVectors { entries: vec![("image".to_string(), dense(2)), ("x".to_string(), dense(1))] };
    assert!(matches!(check_named_vectors(&bad, &config()), Err(OperationError::VectorNameNotExists { .. })));
    let wrong = NamedVectors { entries: vec![("image".to_string(), dense(9))] };
    assert!(matches!(
        check_named_vectors(&wrong, &config()),
        Err(OperationError::WrongVector { expected_dim: 2, received_dim: 9 })
    ));
}

#[test]
fn stop_flag() {
    assert!(check_stopped(&AtomicBool::new(false)).is_ok());
    assert!(matches!(check_stopped(&AtomicBool::new(true)), Err(OperationError::Cancelled { .. })));
    assert!(cancelled_if(false).is_ok());
    match cancelled_if(true) {
        Err(OperationError::Cancelled { description }) => assert_eq!(description, "Operation is stopped externally"),
        other => panic!("unexpected outcome {:?}", other),
    }
}
