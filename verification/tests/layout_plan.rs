use bitgen::layout::{coord, word_count};

#[test]
fn word_count_is_ceiling_at_64() {
    assert_eq!(word_count(1, 64), 1);
    assert_eq!(word_count(63, 64), 1);
    assert_eq!(word_count(64, 64), 1);
    assert_eq!(word_count(65, 64), 2);
    assert_eq!(word_count(128, 64), 2);
    assert_eq!(word_count(129, 64), 3);
}

#[test]
fn word_count_is_ceiling_at_32() {
    assert_eq!(word_count(1, 32), 1);
    assert_eq!(word_count(32, 32), 1);
    assert_eq!(word_count(33, 32), 2);
    assert_eq!(word_count(64, 32), 2);
    assert_eq!(word_count(65, 32), 3);
}

#[test]
fn zero_fields_take_zero_words() {
    assert_eq!(word_count(0, 32), 0);
    assert_eq!(word_count(0, 64), 0);
}

#[test]
fn coordinates_recombine_to_the_index() {
    for w in [32usize, 64] {
        for i in [0usize, 1, 31, 32, 33, 63, 64, 65, 200] {
            let (word, bit) = coord(i, w);
            assert_eq!(word * w + bit, i);
            assert!(bit < w);
        }
    }
}

#[test]
fn coordinates_match_sequential_assignment() {
    assert_eq!(coord(0, 64), (0, 0));
    assert_eq!(coord(63, 64), (0, 63));
    assert_eq!(coord(64, 64), (1, 0));
    assert_eq!(coord(70, 64), (1, 6));
    assert_eq!(coord(31, 32), (0, 31));
    assert_eq!(coord(32, 32), (1, 0));
}
