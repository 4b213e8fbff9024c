use segment::reco_query::{merge_similarities, RecoQuery, RecoScore};

fn score(positives: Vec<isize>, negatives: Vec<isize>) -> RecoScore {
    let query = RecoQuery::new(positives, negatives);
    query.score_by(|x: &isize| *x as i32)
}

#[test]
fn score_query_higher_positive() {
    assert_eq!(score(vec![42], vec![4]), RecoScore::Value(42));
}

#[test]
fn score_query_higher_negative() {
    assert_eq!(score(vec![4], vec![42]), RecoScore::Value(-(42 * 42)));
}

#[test]
fn score_query_negative_zero() {
    assert_eq!(score(vec![-1], vec![0]), RecoScore::Value(0));
}

#[test]
fn score_query_positive_zero() {
    assert_eq!(score(vec![0], vec![-1]), RecoScore::Value(0));
}

#[test]
fn score_query_both_under_zero() {
    assert_eq!(score(vec![-42], vec![-84]), RecoScore::Value(-42));
}

#[test]
fn score_query_both_under_zero_but_negative_is_higher() {
    assert_eq!(score(vec![-84], vec![-42]), RecoScore::Value(-(42 * 42)));
}

#[test]
fn score_query_multiple_with_negative_best() {
    assert_eq!(score(vec![1, 2, 3], vec![4, 5, 6]), RecoScore::Value(-(6 * 6)));
}

#[test]
fn score_query_multiple_with_positive_best() {
    assert_eq!(score(vec![10, 2, 3], vec![4, 5, 6]), RecoScore::Value(10));
}

#[test]
fn score_query_no_input() {
    assert_eq!(score(vec![], vec![]), RecoScore::NegInfinity);
}

#[test]
fn positives_only_gives_best_positive() {
    assert_eq!(score(vec![3, 17, -5, 9], vec![]), RecoScore::Value(17));
    assert_eq!(score(vec![-7], vec![]), RecoScore::Value(-7));
}

#[test]
fn negatives_only_gives_negated_square() {
    assert_eq!(score(vec![], vec![-3, 2, -9]), RecoScore::Value(-4));
    assert_eq!(score(vec![], vec![-9]), RecoScore::Value(-81));
}

#[test]
fn tie_goes_to_negatives() {
    assert_eq!(score(vec![5], vec![5]), RecoScore::Value(-25));
    assert_eq!(score(vec![1, 5], vec![5, -2]), RecoScore::Value(-25));
}

#[test]
fn extreme_similarities_do_not_overflow() {
    assert_eq!(
        score(vec![], vec![i32::MIN as isize]),
        RecoScore::Value(-((i32::MIN as i64) * (i32::MIN as i64)))
    );
    assert_eq!(score(vec![i32::MAX as isize], vec![i32::MIN as isize]), RecoScore::Value(i32::MAX as i64));
}

#[test]
fn merge_similarities_direct() {
    assert_eq!(merge_similarities(&vec![1, 8], &vec![3]), RecoScore::Value(8));
    assert_eq!(merge_similarities(&vec![1], &vec![3]), RecoScore::Value(-9));
    assert_eq!(merge_similarities(&vec![], &vec![]), RecoScore::NegInfinity);
}

#[test]
fn iter_all_lists_positives_then_negatives() {
    let query = RecoQuery::new(vec![1, 2], vec![3]);
    let all: Vec<i32> = query.iter_all().into_iter().copied().collect();
    assert_eq!(all, vec![1, 2, 3]);
}

#[test]
fn transform_keeps_structure_and_order() {
    let query = RecoQuery::new(vec![1, 2, 3], vec![10]);
    let mapped = query.transform(|x: i32| x * 2);
    assert_eq!(mapped.positives, vec![2, 4, 6]);
    assert_eq!(mapped.negatives, vec![20]);
}
