use ahv::{AllocationHandle, Counter, MappingHandle};

#[test]
fn counter_starts_at_zero_and_pre_increments() {
    let mut counter = Counter::default();
    assert_eq!(counter.get_next_value(), 1);
    assert_eq!(counter.get_next_value(), 2);
    assert_eq!(counter.get_next_value(), 3);
}

#[test]
fn counter_values_are_pairwise_distinct_and_never_zero() {
    let mut counter = Counter::default();
    let mut seen: Vec<u64> = Vec::new();
    for _ in 0..1000 {
        assert!(counter.has_next_value());
        let value = counter.get_next_value();
        assert_ne!(value, 0);
        assert!(!seen.contains(&value));
        seen.push(value);
    }
    assert_eq!(seen.last(), Some(&1000));
}

#[test]
fn counters_are_independent() {
    let mut first = Counter::default();
    let mut second = Counter::default();
    assert_eq!(first.get_next_value(), 1);
    assert_eq!(first.get_next_value(), 2);
    assert_eq!(second.get_next_value(), 1);
}

#[test]
fn handles_compare_by_value() {
    assert_eq!(AllocationHandle(3), AllocationHandle(3));
    assert_ne!(AllocationHandle(3), AllocationHandle(4));
    assert_eq!(MappingHandle(3), MappingHandle(3));
    assert_ne!(MappingHandle(3), MappingHandle(4));
    assert_eq!(AllocationHandle(7).0, 7);
    assert_eq!(MappingHandle(9).0, 9);
}
