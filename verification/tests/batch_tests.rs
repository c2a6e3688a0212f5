use forge_core::batch::{BatchArena, BatchToken};

#[test]
fn test_batch_arena() {
    let mut arena = BatchArena::new(128, 1);

    assert_eq!(arena.len(), 0);
    assert_eq!(arena.capacity(), 128);

    // Add some tokens
    assert!(arena.add_token(1, 0, 0, false));
    assert!(arena.add_token(2, 1, 0, false));
    assert!(arena.add_token(3, 2, 0, true));

    assert_eq!(arena.len(), 3);

    // Reset
    arena.reset();
    assert_eq!(arena.len(), 0);
}

#[test]
fn add_tokens_stops_when_full() {
    let mut arena = BatchArena::new(3, 1);
    assert!(arena.add_token(7, 0, 0, false));
    let added = arena.add_tokens(&[10, 11, 12, 13], 5, 2);
    assert_eq!(added, 2);
    assert_eq!(arena.remaining(), 0);
    assert!(!arena.add_token(99, 9, 0, false));
    assert_eq!(
        arena.entries(),
        &vec![
            BatchToken { token: 7, pos: 0, seq_id: 0, logits: false },
            BatchToken { token: 10, pos: 5, seq_id: 2, logits: false },
            BatchToken { token: 11, pos: 6, seq_id: 2, logits: false },
        ]
    );
}

#[test]
fn add_tokens_requests_logits_for_the_last_token() {
    let mut arena = BatchArena::new(8, 1);
    assert_eq!(arena.add_tokens(&[4, 5], 0, 0), 2);
    assert!(!arena.entries()[0].logits);
    assert!(arena.entries()[1].logits);
    assert!(!arena.is_empty());
    assert_eq!(arena.add_tokens(&[], 2, 0), 0);
    assert_eq!(arena.len(), 2);
    assert_eq!(arena.n_seq_max(), 1);
}

#[test]
fn arena_without_capacity_accepts_nothing() {
    let mut arena = BatchArena::new(0, 1);
    assert!(!arena.add_token(1, 0, 0, true));
    assert_eq!(arena.add_tokens(&[1, 2], 0, 0), 0);
    assert_eq!(arena.remaining(), 0);
}
