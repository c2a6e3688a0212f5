use forge_core::memory::{reserve_budget, MemoryTracker};
use forge_core::ForgeError;

fn mb(bytes: usize) -> f64 {
    bytes as f64 / (1024.0 * 1024.0)
}

#[test]
fn test_tracking() {
    let mut tracker = MemoryTracker::new(Some(100)); // 100 MB budget

    tracker.record_alloc(50 * 1024 * 1024); // 50 MB
    assert!((mb(tracker.current_bytes()) - 50.0).abs() < 0.1);

    tracker.record_alloc(30 * 1024 * 1024); // +30 MB = 80 MB
    assert!((mb(tracker.current_bytes()) - 80.0).abs() < 0.1);

    tracker.dealloc(50 * 1024 * 1024); // -50 MB = 30 MB
    assert!((mb(tracker.current_bytes()) - 30.0).abs() < 0.1);

    // Peak should still be 80 MB
    assert!((mb(tracker.peak_bytes()) - 80.0).abs() < 0.1);
}

#[test]
fn test_budget_exceeded() {
    let mut tracker = MemoryTracker::new(Some(100)); // 100 MB budget

    assert!(tracker.record_alloc(50 * 1024 * 1024)); // OK
    assert!(!tracker.record_alloc(60 * 1024 * 1024)); // Exceeds budget
}

#[test]
fn test_memory_tracking() {
    let mut tracker = MemoryTracker::new(Some(100)); // 100 MB budget

    let _initial = mb(tracker.current_bytes());
    tracker.record_alloc(1024 * 1024); // 1 MB
    tracker.dealloc(512 * 1024); // 512 KB
    let _peak = mb(tracker.peak_bytes());

    tracker.reset();
    assert!((mb(tracker.current_bytes()) - 0.0).abs() < 0.01);
}

#[test]
fn over_budget_allocation_is_still_recorded() {
    let mut tracker = MemoryTracker::new(Some(1));
    assert!(!tracker.record_alloc(2 * 1024 * 1024));
    assert_eq!(tracker.current_bytes(), 2 * 1024 * 1024);
    assert_eq!(tracker.peak_bytes(), 2 * 1024 * 1024);
}

#[test]
fn unlimited_budget_accepts_everything() {
    let mut tracker = MemoryTracker::default();
    assert_eq!(tracker.budget_bytes(), 0);
    assert!(tracker.would_fit(usize::MAX));
    assert!(tracker.record_alloc(1 << 40));
}

#[test]
fn would_fit_agrees_with_record_alloc() {
    let mut tracker = MemoryTracker::new(Some(10));
    tracker.record_alloc(4 * 1024 * 1024);
    assert!(tracker.would_fit(6 * 1024 * 1024));
    assert!(!tracker.would_fit(6 * 1024 * 1024 + 1));
    let mut copy = MemoryTracker::new(Some(10));
    copy.record_alloc(4 * 1024 * 1024);
    assert!(copy.record_alloc(6 * 1024 * 1024));
    assert!(!tracker.record_alloc(6 * 1024 * 1024 + 1));
}

#[test]
fn dealloc_undoes_alloc_and_wraps_below_zero() {
    let mut tracker = MemoryTracker::new(None);
    tracker.record_alloc(1000);
    tracker.dealloc(1000);
    assert_eq!(tracker.current_bytes(), 0);
    assert_eq!(tracker.peak_bytes(), 1000);
    tracker.dealloc(1);
    assert_eq!(tracker.current_bytes(), usize::MAX);
}

#[test]
fn reset_keeps_budget() {
    let mut tracker = MemoryTracker::new(Some(3));
    tracker.record_alloc(100);
    tracker.reset();
    assert_eq!(tracker.current_bytes(), 0);
    assert_eq!(tracker.peak_bytes(), 0);
    assert_eq!(tracker.budget_bytes(), 3 * 1024 * 1024);
}

#[test]
fn reserve_budget_reports_rounded_request() {
    let mut tracker = MemoryTracker::new(Some(1));
    let err = reserve_budget(&mut tracker, 3 * 1024 * 1024 + 1, 1).unwrap_err();
    match err {
        ForgeError::MemoryBudgetExceeded { requested_mb, available_mb } => {
            assert_eq!(requested_mb, 4);
            assert_eq!(available_mb, 1);
        }
        other => panic!("unexpected error {other:?}"),
    }
    assert_eq!(tracker.current_bytes(), 3 * 1024 * 1024 + 1);
    let mut roomy = MemoryTracker::new(Some(8));
    assert!(reserve_budget(&mut roomy, 8 * 1024 * 1024, 8).is_ok());
}

#[test]
fn remaining_budget_in_bytes() {
    let mut tracker = MemoryTracker::new(Some(100));
    assert_eq!(tracker.remaining_bytes(), 100 * 1024 * 1024);
    tracker.record_alloc(30 * 1024 * 1024);
    assert_eq!(tracker.remaining_bytes(), 70 * 1024 * 1024);
    tracker.record_alloc(80 * 1024 * 1024);
    assert_eq!(tracker.remaining_bytes(), 0);
    let mut unlimited = MemoryTracker::new(None);
    unlimited.record_alloc(5);
    assert_eq!(unlimited.remaining_bytes(), 0);
}

#[test]
fn peak_is_the_largest_total_since_reset() {
    let mut t = MemoryTracker::new(None);
    t.record_alloc(10);
    t.record_alloc(5);
    t.dealloc(12);
    t.record_alloc(4);
    assert_eq!((t.current_bytes(), t.peak_bytes()), (7, 15));
    t.reset();
    t.record_alloc(3);
    t.dealloc(1);
    assert_eq!((t.current_bytes(), t.peak_bytes()), (2, 3));
}
