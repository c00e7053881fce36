use bitgen::lazy::LazyCell;
use std::collections::HashMap;

fn times_two(n: usize) -> usize {
    n * 2
}

#[test]
fn test_basic() {
    let mut number: LazyCell<usize> = LazyCell::new();
    number.force(|| times_two(3));
    let mut vec: LazyCell<[Box<usize>; 3]> = LazyCell::new();
    vec.force(|| [Box::new(1), Box::new(2), Box::new(3)]);
    let mut owned_string: LazyCell<String> = LazyCell::new();
    owned_string.force(|| "hello".to_string());
    let mut hashmap: LazyCell<HashMap<usize, &'static str>> = LazyCell::new();
    hashmap.force(|| {
        let mut m = HashMap::new();
        m.insert(0usize, "abc");
        m.insert(1, "def");
        m.insert(2, "ghi");
        m
    });

    assert_eq!(*owned_string.get(), "hello".to_string());
    assert_eq!(*number.get(), 6);
    assert!(hashmap.get().get(&1).is_some());
    assert!(hashmap.get().get(&3).is_none());
    assert_eq!(
        vec.get().as_slice(),
        &[Box::new(1usize), Box::new(2), Box::new(3)]
    );
}

#[test]
fn test_repeat() {
    let mut number: LazyCell<usize> = LazyCell::new();
    number.force(|| times_two(3));
    assert_eq!(*number.get(), 6);
    assert_eq!(*number.get(), 6);
    assert_eq!(*number.get(), 6);
}

#[test]
fn initializer_runs_exactly_once() {
    let mut evaluations: usize = 0;
    let mut cell: LazyCell<usize> = LazyCell::new();
    let ran_first = cell.force(|| {
        evaluations += 1;
        41 + 1
    });
    assert!(ran_first);
    assert_eq!(evaluations, 1);
    for _ in 0..4 {
        let ran_again = cell.force(|| {
            evaluations += 1;
            0
        });
        assert!(!ran_again);
        assert_eq!(*cell.get(), 42);
    }
    assert_eq!(evaluations, 1);
}

#[test]
fn get_or_init_runs_initializer_on_first_access_only() {
    let mut cell: LazyCell<usize> = LazyCell::new();
    assert_eq!(*cell.get_or_init(|| 5), 5);
    assert_eq!(*cell.get_or_init(|| 9), 5);
}

#[test]
fn reads_after_initialization_are_equal() {
    let mut cell: LazyCell<String> = LazyCell::new();
    cell.force(|| "first".to_string());
    let first = cell.get().clone();
    assert_eq!(*cell.get(), first);
    assert_eq!(*cell.get(), first);
    cell.force(|| "second".to_string());
    assert_eq!(*cell.get(), first);
}
