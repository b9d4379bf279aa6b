use orchestrator::scan::next_scan_start;

#[test]
fn empty_scan_keeps_the_start() {
    assert_eq!(next_scan_start(17, &vec![]), Some(17));
    assert_eq!(next_scan_start(0, &vec![]), Some(0));
}

#[test]
fn scan_moves_past_the_highest_block() {
    assert_eq!(next_scan_start(0, &vec![5, 9, 7]), Some(10));
    assert_eq!(next_scan_start(3, &vec![3]), Some(4));
    assert_eq!(next_scan_start(3, &vec![8, 8, 8]), Some(9));
}

#[test]
fn scan_goes_by_the_highest_block_not_the_last() {
    assert_eq!(next_scan_start(0, &vec![12, 4]), Some(13));
    assert_eq!(next_scan_start(0, &vec![4, 12]), Some(13));
}

#[test]
fn scan_of_block_zero_moves_to_one() {
    assert_eq!(next_scan_start(0, &vec![0]), Some(1));
}

#[test]
fn scan_has_no_start_past_the_last_block_number() {
    assert_eq!(next_scan_start(0, &vec![1, u64::MAX, 2]), None);
    assert_eq!(next_scan_start(0, &vec![u64::MAX - 1]), Some(u64::MAX));
}
