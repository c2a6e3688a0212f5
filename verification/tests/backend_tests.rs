use forge_core::backend::{BackendRefCount, ReleaseOutcome};

#[test]
fn test_backend_lifecycle() {
    println!("=== Test: Backend Lifecycle ===");
    let mut backend = BackendRefCount::new();
    // The first reference initializes the backend; it is never released
    // here, so the backend persists.
    assert!(backend.acquire());
    assert_eq!(backend.count(), 1);
    println!("✓ Backend lifecycle test complete (backend persists)");
}

#[test]
fn first_acquire_initializes_and_last_release_frees() {
    let mut backend = BackendRefCount::new();
    assert!(backend.acquire());
    assert!(!backend.acquire());
    assert_eq!(backend.count(), 2);
    assert_eq!(backend.release(), ReleaseOutcome::StillInUse);
    assert_eq!(backend.release(), ReleaseOutcome::FreeBackend);
    assert_eq!(backend.release(), ReleaseOutcome::Unmatched);
    assert_eq!(backend.count(), 0);
    assert!(backend.acquire());
}
