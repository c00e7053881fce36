use bitgen::record::BitRecord;

#[test]
fn fresh_record_reports_false_everywhere() {
    for w in [32usize, 64] {
        let r = BitRecord::new(100, w);
        for i in 0..100 {
            assert!(!r.get(i));
        }
    }
}

#[test]
fn set_then_get_round_trips() {
    for w in [32usize, 64] {
        let mut r = BitRecord::new(70, w);
        for i in 0..70 {
            r.set(i, true);
            assert!(r.get(i));
            r.set(i, false);
            assert!(!r.get(i));
        }
    }
}

#[test]
fn setting_one_field_perturbs_no_other() {
    for w in [32usize, 64] {
        // 70 fields spread over several words at either width.
        let mut r = BitRecord::new(70, w);
        r.set(3, true);
        r.set(40, true);
        r.set(69, true);
        r.set(40, false);
        for i in 0..70 {
            assert_eq!(r.get(i), i == 3 || i == 69);
        }
    }
}

#[test]
fn alternating_pattern_survives() {
    let mut r = BitRecord::new(130, 64);
    for i in 0..130 {
        r.set(i, i % 2 == 0);
    }
    for i in 0..130 {
        assert_eq!(r.get(i), i % 2 == 0);
    }
}

#[test]
fn zero_field_record_is_legal() {
    let r = BitRecord::new(0, 64);
    // Nothing to read or write: the record simply exists, with no storage.
    drop(r);
}
