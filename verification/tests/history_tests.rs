use zemon::history::CpuHistory;

#[test]
fn new_history_is_full_of_zeros() {
    let h = CpuHistory::new(4);
    assert_eq!(h.len(), 4);
    assert_eq!(h.samples().as_slice(), &[0, 0, 0, 0]);
}

#[test]
fn record_prepends_newest_first() {
    let mut h = CpuHistory::new(0);
    h.resize(3);
    h.record(1);
    h.record(2);
    h.record(3);
    assert_eq!(h.samples().as_slice(), &[3, 2, 1]);
}

#[test]
fn record_evicts_from_the_tail_past_capacity() {
    let mut h = CpuHistory::new(0);
    h.resize(3);
    h.record(1);
    h.record(2);
    h.record(3);
    h.record(4);
    assert_eq!(h.samples().as_slice(), &[4, 3, 2]);
}

#[test]
fn length_never_exceeds_capacity_over_any_sequence() {
    let mut h = CpuHistory::new(5);
    for i in 0..50u64 {
        h.record(i);
        assert!(h.len() <= 5);
    }
    h.resize(2);
    assert!(h.len() <= 2);
    for i in 0..50u64 {
        h.record(i);
        assert!(h.len() <= 2);
    }
    h.resize(7);
    assert!(h.len() <= 7);
    h.record(9);
    assert!(h.len() <= 7);
}

#[test]
fn resize_to_zero_empties_and_keeps_empty() {
    let mut h = CpuHistory::new(4);
    h.record(8);
    h.resize(0);
    assert_eq!(h.len(), 0);
    h.record(5);
    assert_eq!(h.len(), 0);
}

#[test]
fn resize_truncates_tail_and_never_grows() {
    let mut h = CpuHistory::new(4);
    h.record(1);
    h.record(2);
    h.record(3);
    h.record(4);
    h.resize(2);
    assert_eq!(h.samples().as_slice(), &[4, 3]);
    h.resize(10);
    assert_eq!(h.samples().as_slice(), &[4, 3]);
}
