use memory_comparison::gc_style::GcObject;
use memory_comparison::gc_style::DEMO_SIZE;
use std::time::Duration;
use std::time::Instant;

#[test]
fn count_starts_at_one() {
    let (shared, first) = GcObject::new(1000);
    assert_eq!(shared.strong_count(), 1);
    assert!(shared.is_live(&first));
    assert_eq!(shared.payload_size(), Some(1000));
    assert_eq!(shared.releases(), 0);
}

#[test]
fn count_follows_duplicate_and_dispose() {
    let (mut shared, first) = GcObject::new(1000);
    let second = shared.duplicate(&first);
    assert_eq!(shared.strong_count(), 2);
    assert!(shared.is_live(&first));
    assert!(shared.is_live(&second));
    assert_eq!(shared.payload_size(), Some(1000));

    assert!(!shared.dispose(second));
    assert_eq!(shared.strong_count(), 1);
    assert!(shared.is_live(&first));
    assert_eq!(shared.payload_size(), Some(1000));
    assert_eq!(shared.releases(), 0);

    assert!(shared.dispose(first));
    assert_eq!(shared.strong_count(), 0);
    assert_eq!(shared.payload_size(), None);
    assert_eq!(shared.releases(), 1);
}

#[test]
fn first_handle_may_go_before_its_duplicates() {
    let (mut shared, first) = GcObject::new(8);
    let second = shared.duplicate(&first);
    let third = shared.duplicate(&second);
    assert_eq!(shared.strong_count(), 3);
    assert!(!shared.dispose(first));
    assert_eq!(shared.strong_count(), 2);
    assert!(shared.is_live(&second));
    assert!(shared.is_live(&third));
    assert!(!shared.dispose(third));
    assert_eq!(shared.payload_size(), Some(8));
    assert!(shared.dispose(second));
    assert_eq!(shared.strong_count(), 0);
    assert_eq!(shared.releases(), 1);
}

#[test]
fn count_is_one_plus_live_duplicates() {
    let (mut shared, first) = GcObject::new(1);
    let mut duplicates = Vec::new();
    for made in 0..5usize {
        assert_eq!(shared.strong_count(), 1 + made);
        duplicates.push(shared.duplicate(&first));
    }
    assert_eq!(shared.strong_count(), 6);
    let mut left = 5usize;
    for duplicate in duplicates {
        assert!(!shared.dispose(duplicate));
        left -= 1;
        assert_eq!(shared.strong_count(), 1 + left);
    }
    assert!(shared.dispose(first));
}

#[test]
fn disposed_handle_slot_is_not_live() {
    let (mut shared, first) = GcObject::new(2);
    let second = shared.duplicate(&first);
    assert!(!shared.dispose(second));
    let third = shared.duplicate(&first);
    assert_eq!(shared.strong_count(), 2);
    assert!(shared.is_live(&third));
    assert!(!shared.dispose(third));
    assert!(shared.dispose(first));
    assert_eq!(shared.payload_size(), None);
}

#[test]
fn empty_object_is_shared_like_any_other() {
    let (mut shared, first) = GcObject::new(0);
    assert_eq!(shared.payload_size(), Some(0));
    assert!(shared.dispose(first));
    assert_eq!(shared.payload_size(), None);
}

#[test]
fn gc_demo_trace() {
    let trace = GcObject::demonstrate_gc();
    assert_eq!(DEMO_SIZE, 1000);
    assert_eq!(trace.size, 1000);
    assert_eq!(trace.count_after_create, 1);
    assert_eq!(trace.count_after_duplicate, 2);
    assert_eq!(trace.count_after_dispose, 1);
    assert_eq!(trace.count_at_end, 0);
    assert_eq!(trace.releases, 1);
}

#[test]
fn live_handle_reaches_the_object() {
    let (mut shared, first) = GcObject::new(12);
    let second = shared.duplicate(&first);
    assert_eq!(shared.get(&first).size(), 12);
    assert_eq!(shared.get(&second).size(), 12);
    assert!(!shared.dispose(first));
    assert_eq!(shared.get(&second).size(), 12);
    let earlier = shared.get(&second).age();
    let later = shared.get(&second).age();
    assert!(earlier <= later);
    assert!(shared.dispose(second));
}

#[test]
fn age_is_measured_from_creation() {
    let before = Instant::now();
    let (mut shared, first) = GcObject::new(16);
    let after = Instant::now();
    assert_eq!(shared.get(&first).age_at(&before), Duration::ZERO);
    assert!(shared.get(&first).age_at(&after) <= after.duration_since(before));
    let later = after + Duration::from_secs(2);
    let second = shared.duplicate(&first);
    assert_eq!(
        shared.get(&second).age_at(&later),
        shared.get(&first).age_at(&after) + Duration::from_secs(2)
    );
    assert!(shared.get(&first).age() <= shared.get(&first).age_at(&Instant::now()));
    assert!(!shared.dispose(first));
    assert!(shared.dispose(second));
}
