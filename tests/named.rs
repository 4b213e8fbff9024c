use segment::named::{BatchVectorStruct, FakeFilterContext, FilterContext, Named, NamedRecoQuery, NamedVector, NamedVectorStruct, VectorStruct};
use segment::reco_query::RecoQuery;
use segment::sparse_vector::SparseVector;

#[test]
fn named_vector_struct_names() {
    let d = NamedVectorStruct::Default(vec![1, 2]);
    assert_eq!(d.get_name(), "");
    assert_eq!(d.get_vector(), &vec![1, 2]);
    let n = NamedVectorStruct::Named(NamedVector { name: "img".to_string(), vector: vec![3] });
    assert_eq!(n.get_name(), "img");
    assert_eq!(n.clone().to_vector(), vec![3]);
    let nv = d.into_named_vector();
    assert_eq!(nv.name, "");
    assert_eq!(nv.vector, vec![1, 2]);
    assert_eq!(n.into_named_vector().name, "img");
}

#[test]
fn named_reco_query_name() {
    let q = NamedRecoQuery { query: RecoQuery::new(vec![], vec![]), using: None };
    assert_eq!(q.get_name(), "");
    let q = NamedRecoQuery { query: RecoQuery::new(vec![], vec![]), using: Some("text".to_string()) };
    assert_eq!(q.get_name(), "text");
}

#[test]
fn vector_struct_emptiness_and_lookup() {
    assert!(VectorStruct::Single(vec![]).is_empty());
    assert!(!VectorStruct::Single(vec![1]).is_empty());
    let multi = VectorStruct::Multi(vec![("a".to_string(), vec![]), ("b".to_string(), vec![5])]);
    assert!(!multi.is_empty());
    assert_eq!(multi.get("b"), Some(&vec![5]));
    assert_eq!(multi.get("c"), None);
    assert!(VectorStruct::Multi(vec![("a".to_string(), vec![])]).is_empty());
    assert!(VectorStruct::Sparse(SparseVector::new(vec![], vec![])).is_empty());
    assert!(!VectorStruct::MultiSparse(vec![("s".to_string(), SparseVector::new(vec![1], vec![2]))]).is_empty());
    assert_eq!(VectorStruct::Single(vec![7]).get(""), Some(&vec![7]));
    assert_eq!(VectorStruct::Single(vec![7]).get("x"), None);
}

#[test]
fn vector_struct_into_all_vectors() {
    let multi = VectorStruct::Multi(vec![("a".to_string(), vec![1]), ("b".to_string(), vec![2, 3])]);
    let all = multi.into_all_vectors();
    assert_eq!(all.entries.len(), 2);
    assert_eq!(all.entries[1].0, "b");
    assert_eq!(all.entries[1].1.clone().try_into_dense().unwrap(), vec![2, 3]);
    let sparse = VectorStruct::Sparse(SparseVector::new(vec![4], vec![5])).into_all_vectors();
    assert_eq!(sparse.entries[0].0, "");
    assert_eq!(sparse.entries[0].1.clone().try_into_sparse().unwrap().indices, vec![4]);
}

#[test]
fn batch_single_into_records() {
    let batch = BatchVectorStruct::Single(vec![vec![1], vec![2]]);
    let records = batch.into_all_vectors(2);
    assert_eq!(records.len(), 2);
    assert_eq!(records[1].entries[0].0, "");
    assert_eq!(records[1].entries[0].1.clone().try_into_dense().unwrap(), vec![2]);
}

#[test]
fn batch_multi_is_transposed() {
    let batch = BatchVectorStruct::Multi(vec![
        ("a".to_string(), vec![vec![1], vec![2]]),
        ("b".to_string(), vec![vec![10], vec![20], vec![30]]),
    ]);
    let records = batch.into_all_vectors(3);
    assert_eq!(records.len(), 3);
    assert_eq!(records[0].entries.len(), 2);
    assert_eq!(records[1].entries[0].0, "a");
    assert_eq!(records[1].entries[1].1.clone().try_into_dense().unwrap(), vec![20]);
    assert_eq!(records[2].entries.len(), 1);
    assert_eq!(records[2].entries[0].0, "b");
}

#[test]
fn batch_without_fields_gives_empty_records() {
    let records = BatchVectorStruct::Multi(vec![]).into_all_vectors(4);
    assert_eq!(records.len(), 4);
    assert!(records.iter().all(|r| r.entries.is_empty()));
}

#[test]
fn fake_filter_accepts_everything() {
    assert!(FakeFilterContext {}.check(0));
    assert!(FakeFilterContext {}.check(12345));
}

#[test]
fn batch_single_and_multi_accessors() {
    let mut batch = BatchVectorStruct::Single(vec![vec![1]]);
    batch.single().push(vec![2]);
    assert_eq!(batch.single().len(), 2);
    let mut multi = BatchVectorStruct::Multi(vec![
        ("a".to_string(), vec![vec![1]]),
        ("".to_string(), vec![vec![5], vec![6]]),
    ]);
    assert_eq!(multi.single(), &mut vec![vec![5], vec![6]]);
    multi.single().push(vec![7]);
    assert_eq!(multi.multi()[1].1.len(), 3);
    multi.multi().push(("b".to_string(), vec![]));
    assert_eq!(multi.multi().len(), 3);
}
