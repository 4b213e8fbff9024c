use std::sync::atomic::AtomicBool;

use segment::sparse_vector::SparseVector;
use segment::types::{Distance, OperationError};
use segment::vector_storage::{SimpleVectorStorage, SparseVectorStorage, VectorStorage, VectorStorageEnum};
use segment::vectors::VectorOrSparseRef;

fn bits(v: &[f32]) -> Vec<u32> {
    v.iter().map(|x| x.to_bits()).collect()
}

fn dense_storage(n: u32) -> VectorStorageEnum {
    let mut s = VectorStorageEnum::Simple(SimpleVectorStorage::new(2, Distance::Dot));
    for i in 0..n {
        let v = bits(&[i as f32, 1.0]);
        s.insert_vector(i, VectorOrSparseRef::Vector(&v)).unwrap();
    }
    s
}

#[test]
fn backend_properties() {
    let s = dense_storage(0);
    assert_eq!(s.vector_dim(), 2);
    assert_eq!(s.distance(), Distance::Dot);
    assert!(!s.is_on_disk());
    assert!(s.files().is_empty());
    let sparse = VectorStorageEnum::SparseRam(SparseVectorStorage::new(Distance::Cosine));
    assert_eq!(sparse.distance(), Distance::Cosine);
    assert_eq!(sparse.total_vector_count(), 0);
}

#[test]
fn insert_and_get() {
    let s = dense_storage(3);
    assert_eq!(s.total_vector_count(), 3);
    match s.get_vector(2) {
        VectorOrSparseRef::Vector(v) => assert_eq!(v, bits(&[2.0, 1.0]).as_slice()),
        VectorOrSparseRef::Sparse(_) => panic!("dense storage returned a sparse vector"),
    }
}

#[test]
fn insert_past_end_pads_with_zero_vectors() {
    let mut s = dense_storage(1);
    let v = bits(&[7.0, 8.0]);
    s.insert_vector(3, VectorOrSparseRef::Vector(&v)).unwrap();
    assert_eq!(s.total_vector_count(), 4);
    match s.get_vector(2) {
        VectorOrSparseRef::Vector(p) => assert_eq!(p, &[0u32, 0u32]),
        VectorOrSparseRef::Sparse(_) => panic!("unexpected sparse vector"),
    }
    assert!(!s.is_deleted_vector(2));
    assert_eq!(s.deleted_vector_count(), 0);
}

#[test]
fn insert_overwrites_and_clears_tombstone() {
    let mut s = dense_storage(2);
    assert_eq!(s.delete_vector(1).unwrap(), true);
    let v = bits(&[5.0, 5.0]);
    s.insert_vector(1, VectorOrSparseRef::Vector(&v)).unwrap();
    assert!(!s.is_deleted_vector(1));
    match s.get_vector(1) {
        VectorOrSparseRef::Vector(p) => assert_eq!(p, v.as_slice()),
        VectorOrSparseRef::Sparse(_) => panic!("unexpected sparse vector"),
    }
}

#[test]
fn insert_wrong_kind_or_length_is_refused() {
    let mut s = dense_storage(1);
    let sv = SparseVector::new(vec![1], bits(&[1.0]));
    assert!(matches!(s.insert_vector(0, VectorOrSparseRef::Sparse(&sv)), Err(OperationError::WrongSparse)));
    let short = bits(&[1.0]);
    assert!(matches!(
        s.insert_vector(0, VectorOrSparseRef::Vector(&short)),
        Err(OperationError::WrongVector { expected_dim: 2, received_dim: 1 })
    ));
    assert_eq!(s.total_vector_count(), 1);

    let mut sparse = VectorStorageEnum::SparseRam(SparseVectorStorage::new(Distance::Dot));
    let d = bits(&[1.0, 2.0]);
    assert!(matches!(sparse.insert_vector(0, VectorOrSparseRef::Vector(&d)), Err(OperationError::WrongSparse)));
    sparse.insert_vector(1, VectorOrSparseRef::Sparse(&sv)).unwrap();
    assert_eq!(sparse.total_vector_count(), 2);
    match sparse.get_vector(0) {
        VectorOrSparseRef::Sparse(p) => assert!(p.indices.is_empty()),
        VectorOrSparseRef::Vector(_) => panic!("unexpected dense vector"),
    }
}

#[test]
fn delete_is_idempotent() {
    let mut s = dense_storage(4);
    assert_eq!(s.deleted_vector_count(), 0);
    assert_eq!(s.delete_vector(2).unwrap(), true);
    assert_eq!(s.deleted_vector_count(), 1);
    assert_eq!(s.delete_vector(2).unwrap(), false);
    assert_eq!(s.deleted_vector_count(), 1);
    assert!(s.is_deleted_vector(2));
    assert!(!s.is_deleted_vector(1));
    assert!(s.deleted_vector_bitslice().is_set(2));
}

#[test]
fn out_of_range_offset_reads_as_not_deleted() {
    let s = dense_storage(2);
    assert!(!s.is_deleted_vector(100));
}

#[test]
fn available_count_is_total_minus_deleted() {
    let mut s = dense_storage(5);
    assert_eq!(s.available_vector_count(), 5);
    s.delete_vector(0).unwrap();
    s.delete_vector(4).unwrap();
    assert_eq!(s.total_vector_count(), 5);
    assert_eq!(s.deleted_vector_count(), 2);
    assert_eq!(s.available_vector_count(), 3);
}

#[test]
fn update_from_copies_vectors_and_flags() {
    let mut other = dense_storage(4);
    other.delete_vector(3).unwrap();
    let mut s = dense_storage(1);
    let stopped = AtomicBool::new(false);
    let range = s.update_from(&other, &vec![3, 1], &stopped).unwrap();
    assert_eq!(range, 1..3);
    assert_eq!(s.total_vector_count(), 3);
    match s.get_vector(1) {
        VectorOrSparseRef::Vector(p) => assert_eq!(p, bits(&[3.0, 1.0]).as_slice()),
        VectorOrSparseRef::Sparse(_) => panic!("unexpected sparse vector"),
    }
    assert!(s.is_deleted_vector(1));
    assert!(!s.is_deleted_vector(2));
}

#[test]
fn update_from_with_stop_flag_set_is_cancelled() {
    let other = dense_storage(3);
    let mut s = dense_storage(0);
    let stopped = AtomicBool::new(true);
    let r = s.update_from(&other, &vec![0, 1, 2], &stopped);
    assert!(matches!(r, Err(OperationError::Cancelled { .. })));
    assert!(s.total_vector_count() < 3);
}

#[test]
fn update_from_wrong_kind_fails() {
    let mut sparse = VectorStorageEnum::SparseRam(SparseVectorStorage::new(Distance::Dot));
    let other = dense_storage(2);
    let stopped = AtomicBool::new(false);
    let r = sparse.update_from(&other, &vec![0], &stopped);
    assert!(matches!(r, Err(OperationError::WrongSparse)));
}

#[test]
fn update_from_with_no_ids_is_an_empty_range() {
    let other = dense_storage(2);
    let mut s = dense_storage(3);
    let stopped = AtomicBool::new(true);
    assert_eq!(s.update_from(&other, &vec![], &stopped).unwrap(), 3..3);
    assert_eq!(s.total_vector_count(), 3);
}

#[test]
fn sparse_memmap_variant_dispatches() {
    let mut s = VectorStorageEnum::SparseMemmap(SparseVectorStorage::new(Distance::Dot));
    let sv = SparseVector::new(vec![3, 1], bits(&[1.0, 2.0]));
    s.insert_vector(0, VectorOrSparseRef::Sparse(&sv)).unwrap();
    assert_eq!(s.total_vector_count(), 1);
    assert_eq!(s.delete_vector(0).unwrap(), true);
    assert_eq!(s.available_vector_count(), 0);
    match s.get_vector(0) {
        VectorOrSparseRef::Sparse(p) => assert_eq!(p.indices, vec![3, 1]),
        VectorOrSparseRef::Vector(_) => panic!("unexpected dense vector"),
    }
}
