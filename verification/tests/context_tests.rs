use forge_core::context::{
    check_room, context_full_error, finish_piece, finish_tokenize, piece_retry_len,
    plan_context_shift, too_large_error, tokenize_capacity, ContextParams, ContextWindow,
    RoomCheck, RoomStep, ShiftPlan,
};
use forge_core::ForgeError;

#[test]
fn context_defaults() {
    let p = ContextParams::default();
    assert_eq!(p.n_ctx, 2048);
    assert_eq!(p.n_batch, 128);
    assert_eq!(p.n_ubatch, 128);
    assert_eq!(p.n_threads, 2);
    assert_eq!(p.n_threads_batch, 2);
    assert!(p.flash_attention);
}

#[test]
fn shift_waits_until_ninety_percent() {
    assert_eq!(plan_context_shift(899, 1000, 10, true), None);
    assert_eq!(
        plan_context_shift(900, 1000, 10, true),
        Some(ShiftPlan { keep: 10, discard: 445, end: 900 })
    );
    assert_eq!(plan_context_shift(950, 1000, 10, false), None);
    assert_eq!(plan_context_shift(950, 1000, 950, true), None);
}

#[test]
fn shift_keeps_the_system_prompt() {
    let plan = plan_context_shift(100, 100, 30, true).unwrap();
    assert_eq!(plan.keep, 30);
    assert_eq!(plan.discard, 35);
    assert_eq!(plan.new_n_past(), 65);
}

#[test]
fn room_checks() {
    assert_eq!(check_room(0, 100, 100), RoomCheck::TooLarge);
    assert_eq!(check_room(10, 50, 100), RoomCheck::Fits);
    assert_eq!(check_room(50, 50, 100), RoomCheck::NeedsShift);
}

#[test]
fn window_makes_room_by_shifting() {
    let mut w = ContextWindow::new(95, 100, 5, true);
    assert_eq!(w.room_step(4), RoomStep::Ready);
    let step = w.room_step(5);
    assert_eq!(step, RoomStep::Shift(ShiftPlan { keep: 5, discard: 45, end: 95 }));
    if let RoomStep::Shift(plan) = step {
        w.apply_shift(plan);
    }
    assert_eq!(w.n_past(), 50);
    assert_eq!(w.room_step(5), RoomStep::Ready);
    w.advance(5);
    assert_eq!(w.n_past(), 55);
    assert_eq!(ContextWindow::new(95, 100, 5, false).room_step(10), RoomStep::Full);
    assert_eq!(w.room_step(100), RoomStep::TooLarge);
}

fn invalid_message(e: ForgeError) -> String {
    match e {
        ForgeError::InvalidParameter(m) => m,
        other => panic!("unexpected error {other:?}"),
    }
}

#[test]
fn room_error_messages() {
    assert_eq!(
        invalid_message(too_large_error(4096, 2048)),
        "input batch of 4096 tokens does not fit context size 2048"
    );
    assert_eq!(
        invalid_message(context_full_error(2047)),
        "context is full at 2047 tokens and cannot be shifted"
    );
}

#[test]
fn tokenize_buffer_handling() {
    assert_eq!(tokenize_capacity(13), 77);
    assert_eq!(finish_tokenize(vec![1, 2, 3, 0, 0], 3).unwrap(), vec![1, 2, 3]);
    match finish_tokenize(vec![0; 4], -7) {
        Err(ForgeError::TokenizationFailed(m)) => assert_eq!(m, "llama_tokenize returned -7"),
        other => panic!("unexpected result {other:?}"),
    }
}

#[test]
fn piece_buffer_handling() {
    assert_eq!(piece_retry_len(-300), Some(300));
    assert_eq!(piece_retry_len(5), None);
    assert_eq!(finish_piece(vec![1, 2, 3, 4], 2), vec![1, 2]);
    assert_eq!(finish_piece(vec![1, 2], -1), vec![1, 2]);
}

#[test]
fn shift_and_room_checks_do_not_overflow() {
    // 90% of i32::MAX is 1932735282.
    assert_eq!(plan_context_shift(1932735281, i32::MAX, 0, true), None);
    assert_eq!(
        plan_context_shift(2000000000, i32::MAX, 0, true),
        Some(ShiftPlan { keep: 0, discard: 1000000000, end: 2000000000 })
    );
    assert_eq!(plan_context_shift(50, 100, i32::MAX, true), None);
    assert_eq!(check_room(i32::MAX - 1, 10, i32::MAX), RoomCheck::NeedsShift);
    assert_eq!(check_room(i32::MIN, 10, 100), RoomCheck::Fits);
}

#[test]
fn shift_that_would_discard_nothing_is_not_planned() {
    // One token after the preserved prefix: half of it is nothing.
    assert_eq!(plan_context_shift(9, 10, 8, true), None);
    assert_eq!(ContextWindow::new(9, 10, 8, true).room_step(1), RoomStep::Full);
    // Two tokens after the prefix: one is discarded.
    assert_eq!(
        plan_context_shift(9, 10, 7, true),
        Some(ShiftPlan { keep: 7, discard: 1, end: 9 })
    );
}
