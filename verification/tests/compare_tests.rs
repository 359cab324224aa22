use dispatch_bench::BenchError;
use dispatch_bench::compare::compare;

#[test]
fn result_has_one_boolean_per_position() {
    let left: Vec<i64> = vec![3, 1, 4, 1, 5, 9, 2, 6];
    let right: Vec<i64> = vec![3, 1, 4, 1, 5, 9, 2, 7];
    let c = compare(&left, &right).unwrap();
    assert_eq!(c.len(), left.len());
    assert_eq!(c.len(), right.len());
}

#[test]
fn result_length_holds_for_empty_arrays() {
    let left: Vec<i64> = vec![];
    let right: Vec<i64> = vec![];
    let c = compare(&left, &right).unwrap();
    assert_eq!(c.len(), 0);
}

#[test]
fn array_compared_with_itself_is_true_everywhere() {
    let a: Vec<i64> = vec![-7, 0, 7, i64::MIN, i64::MAX, 42];
    let c = compare(&a, &a).unwrap();
    assert_eq!(c.len(), a.len());
    assert!(c.iter().all(|&b| b));
}

#[test]
fn single_difference_is_false_there_and_true_elsewhere() {
    let left: Vec<i64> = vec![10, 20, 30, 40, 50];
    let mut right = left.clone();
    right[3] = 41;
    let c = compare(&left, &right).unwrap();
    assert_eq!(c, vec![true, true, true, false, true]);
}

#[test]
fn exact_elementwise_result() {
    let left: Vec<i64> = vec![1, 2, 3, 4];
    let right: Vec<i64> = vec![1, 5, 3, -4];
    let c = compare(&left, &right).unwrap();
    assert_eq!(c, vec![true, false, true, false]);
}

#[test]
fn mismatched_lengths_fail_with_length_mismatch() {
    let left: Vec<i64> = vec![1, 2, 3];
    let right: Vec<i64> = vec![1, 2];
    assert_eq!(compare(&left, &right), Err(BenchError::LengthMismatch));
    assert_eq!(compare(&right, &left), Err(BenchError::LengthMismatch));
}
