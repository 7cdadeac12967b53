use fusion_htlc::stages::{is_strictly_increasing, stage_of};

#[test]
fn stage_changes_exactly_at_each_boundary() {
    let boundaries: Vec<u64> = vec![100, 200, 300];
    assert_eq!(stage_of(0, &boundaries), 0);
    assert_eq!(stage_of(99, &boundaries), 0);
    assert_eq!(stage_of(100, &boundaries), 1);
    assert_eq!(stage_of(101, &boundaries), 1);
    assert_eq!(stage_of(199, &boundaries), 1);
    assert_eq!(stage_of(200, &boundaries), 2);
    assert_eq!(stage_of(201, &boundaries), 2);
    assert_eq!(stage_of(299, &boundaries), 2);
    assert_eq!(stage_of(300, &boundaries), 3);
    assert_eq!(stage_of(301, &boundaries), 3);
    assert_eq!(stage_of(u64::MAX, &boundaries), 3);
}

#[test]
fn a_single_boundary_splits_before_from_after() {
    let boundaries: Vec<u64> = vec![3600];
    assert_eq!(stage_of(3599, &boundaries), 0);
    assert_eq!(stage_of(3600, &boundaries), 1);
    assert_eq!(stage_of(3601, &boundaries), 1);
}

#[test]
fn without_boundaries_there_is_one_stage() {
    let boundaries: Vec<u64> = vec![];
    assert_eq!(stage_of(0, &boundaries), 0);
    assert_eq!(stage_of(12345, &boundaries), 0);
}

#[test]
fn adjacent_boundaries_leave_a_stage_of_one_second() {
    let boundaries: Vec<u64> = vec![10, 11, 12];
    assert_eq!(stage_of(9, &boundaries), 0);
    assert_eq!(stage_of(10, &boundaries), 1);
    assert_eq!(stage_of(11, &boundaries), 2);
    assert_eq!(stage_of(12, &boundaries), 3);
}

#[test]
fn boundaries_must_increase_strictly() {
    assert!(is_strictly_increasing(&vec![1, 2, 3]));
    assert!(is_strictly_increasing(&vec![]));
    assert!(is_strictly_increasing(&vec![5]));
    assert!(!is_strictly_increasing(&vec![1, 1, 3]));
    assert!(!is_strictly_increasing(&vec![1, 3, 2]));
    assert!(!is_strictly_increasing(&vec![2, 1]));
}
