use forge_core::context::ShiftPlan;
use forge_core::engine::{EngineState, GenAction, GenEvent, Generation, GenerationKind};
use forge_core::ForgeError;

fn done_text(a: GenAction) -> String {
    match a {
        GenAction::Done(Ok(s)) => s,
        GenAction::Done(Err(e)) => panic!("failed: {e:?}"),
        _ => panic!("not done"),
    }
}

fn done_error(a: GenAction) -> ForgeError {
    match a {
        GenAction::Done(Err(e)) => e,
        _ => panic!("expected an error"),
    }
}

#[test]
fn turn_decodes_prompt_in_batches_then_generates() {
    let state = EngineState::new();
    let mut g = state.begin(GenerationKind::Turn { add_bos: true }, 100, 2, 5, true);
    let (a, _) = g.step(GenEvent::Start, false);
    assert!(matches!(a, GenAction::Tokenize { add_special: true }));
    let (a, _) = g.step(GenEvent::Tokenized(Ok(vec![1, 2, 3])), false);
    assert!(matches!(a, GenAction::DecodePrompt { start: 0, end: 2, pos: 0 }));
    let (a, _) = g.step(GenEvent::Decoded(0), false);
    assert!(matches!(a, GenAction::DecodePrompt { start: 2, end: 3, pos: 2 }));
    let (a, _) = g.step(GenEvent::Decoded(0), false);
    assert!(matches!(a, GenAction::Sample));
    let (a, chunks) =
        g.step(GenEvent::Sampled { token: 7, is_eog: false, piece: b"Hi".to_vec() }, false);
    assert!(matches!(a, GenAction::DecodeToken { token: 7, pos: 3, logits: true }));
    assert_eq!(chunks, vec!["Hi"]);
    let (a, _) = g.step(GenEvent::Decoded(0), false);
    assert!(matches!(a, GenAction::Sample));
    let (a, _) = g.step(GenEvent::Sampled { token: 2, is_eog: true, piece: Vec::new() }, false);
    assert!(matches!(a, GenAction::DecodeToken { token: 2, pos: 4, logits: false }));
    let (a, chunks) = g.step(GenEvent::Decoded(0), false);
    assert!(chunks.is_empty());
    assert_eq!(done_text(a), "Hi");
    assert_eq!(g.n_past(), 5);
    assert_eq!(g.last_eog(), Some(2));
    let mut state = state;
    state.absorb(&g);
    assert_eq!(state.n_past(), 5);
    assert!(!state.is_first_turn());
    assert_eq!(state.last_eog_token(), Some(2));
}

#[test]
fn later_turn_with_bos_is_refused() {
    let mut state = EngineState::new();
    state.restart_at(12);
    let mut g = state.begin(GenerationKind::Turn { add_bos: true }, 100, 8, 5, true);
    let (a, _) = g.step(GenEvent::Start, false);
    match done_error(a) {
        ForgeError::InvalidParameter(m) => assert_eq!(
            m,
            "add_bos can only be true for the first conversation turn; call reset() first"
        ),
        other => panic!("unexpected error {other:?}"),
    }
    assert!(g.is_finished());
}

#[test]
fn fresh_generation_clears_first_and_stops_at_max_tokens() {
    let mut state = EngineState::new();
    state.restart_at(40);
    let mut g = state.begin(GenerationKind::Fresh, 100, 8, 1, true);
    let (a, _) = g.step(GenEvent::Start, false);
    assert!(matches!(a, GenAction::Tokenize { add_special: true }));
    let (a, _) = g.step(GenEvent::Tokenized(Ok(vec![5])), false);
    assert!(matches!(a, GenAction::ClearContext));
    let (a, _) = g.step(GenEvent::Cleared, false);
    assert!(matches!(a, GenAction::DecodePrompt { start: 0, end: 1, pos: 0 }));
    let (a, _) = g.step(GenEvent::Decoded(0), false);
    assert!(matches!(a, GenAction::Sample));
    let (a, _) =
        g.step(GenEvent::Sampled { token: 9, is_eog: false, piece: vec![0xe2, 0x82] }, false);
    assert!(matches!(a, GenAction::DecodeToken { token: 9, pos: 1, logits: true }));
    let (a, chunks) = g.step(GenEvent::Decoded(0), false);
    assert_eq!(chunks, vec!["\u{fffd}"]);
    assert_eq!(done_text(a), "\u{fffd}");
    assert_eq!(g.n_past(), 2);
}

#[test]
fn fresh_generation_ignores_failed_eog_decode() {
    let mut g = EngineState::new().begin(GenerationKind::Fresh, 100, 8, 4, true);
    g.step(GenEvent::Start, false);
    g.step(GenEvent::Tokenized(Ok(vec![5])), false);
    g.step(GenEvent::Cleared, false);
    g.step(GenEvent::Decoded(0), false);
    let (a, _) = g.step(GenEvent::Sampled { token: 3, is_eog: true, piece: Vec::new() }, false);
    assert!(matches!(a, GenAction::DecodeToken { token: 3, pos: 1, logits: false }));
    let (a, _) = g.step(GenEvent::Decoded(-1), false);
    assert_eq!(done_text(a), "");
}

#[test]
fn cancellation_stops_before_the_next_chunk() {
    let mut g = EngineState::new().begin(GenerationKind::Turn { add_bos: false }, 100, 1, 4, true);
    g.step(GenEvent::Start, false);
    g.step(GenEvent::Tokenized(Ok(vec![1, 2])), false);
    let (a, _) = g.step(GenEvent::Decoded(0), true);
    assert!(matches!(done_error(a), ForgeError::Cancelled));
    assert_eq!(g.n_past(), 1);
}

#[test]
fn decode_failure_is_reported() {
    let mut g = EngineState::new().begin(GenerationKind::Turn { add_bos: false }, 100, 4, 4, true);
    g.step(GenEvent::Start, false);
    g.step(GenEvent::Tokenized(Ok(vec![1, 2])), false);
    let (a, _) = g.step(GenEvent::Decoded(3), false);
    assert!(matches!(done_error(a), ForgeError::DecodeFailed(3)));
}

#[test]
fn tokenizer_error_is_passed_on() {
    let mut g = EngineState::new().begin(GenerationKind::Turn { add_bos: false }, 100, 4, 4, true);
    g.step(GenEvent::Start, false);
    let (a, _) = g.step(
        GenEvent::Tokenized(Err(ForgeError::TokenizationFailed("boom".to_string()))),
        false,
    );
    assert!(matches!(done_error(a), ForgeError::TokenizationFailed(m) if m == "boom"));
}

#[test]
fn full_context_is_shifted_before_sampling() {
    let mut state = EngineState::new();
    state.restart_at(99);
    state.set_n_keep(5);
    let mut g = state.begin(GenerationKind::AfterMedia, 100, 8, 3, true);
    let (a, _) = g.step(GenEvent::Start, false);
    assert!(matches!(a, GenAction::Shift(ShiftPlan { keep: 5, discard: 47, end: 99 })));
    let (a, _) = g.step(GenEvent::Shifted(true), false);
    assert!(matches!(a, GenAction::Sample));
    assert_eq!(g.n_past(), 52);
    let (a, _) = g.step(GenEvent::Sampled { token: 1, is_eog: true, piece: Vec::new() }, false);
    assert!(matches!(a, GenAction::Accept { token: 1 }));
    let (a, _) = g.step(GenEvent::Accepted, false);
    assert_eq!(done_text(a), "");
}

#[test]
fn failed_shift_reports_full_context() {
    let mut state = EngineState::new();
    state.restart_at(99);
    let mut g = state.begin(GenerationKind::AfterMedia, 100, 8, 3, true);
    g.step(GenEvent::Start, false);
    let (a, _) = g.step(GenEvent::Shifted(false), false);
    match done_error(a) {
        ForgeError::InvalidParameter(m) => {
            assert_eq!(m, "context is full at 99 tokens and cannot be shifted")
        }
        other => panic!("unexpected error {other:?}"),
    }
}

#[test]
fn prompt_larger_than_context_is_refused() {
    let mut g = EngineState::new().begin(GenerationKind::Turn { add_bos: true }, 4, 16, 3, true);
    g.step(GenEvent::Start, false);
    let (a, _) = g.step(GenEvent::Tokenized(Ok(vec![1, 2, 3, 4, 5])), false);
    match done_error(a) {
        ForgeError::InvalidParameter(m) => {
            assert_eq!(m, "input batch of 5 tokens does not fit context size 4")
        }
        other => panic!("unexpected error {other:?}"),
    }
}

#[test]
fn engine_state_bookkeeping() {
    let mut state = EngineState::new();
    assert!(state.is_first_turn());
    state.set_n_keep(7);
    state.restart_at(30);
    assert_eq!(state.n_past(), 30);
    state.reset();
    assert!(state.is_first_turn());
    assert_eq!(state.n_keep(), 7);
    assert_eq!(state.last_eog_token(), None);
}

#[test]
fn extreme_n_keep_still_starts_and_refuses_bos_later() {
    let mut state = EngineState::new();
    state.set_n_keep(i32::MAX);
    state.restart_at(10);
    let mut g = state.begin(GenerationKind::Turn { add_bos: true }, 2048, 128, 16, true);
    let (a, chunks) = g.step(GenEvent::Start, false);
    match done_error(a) {
        ForgeError::InvalidParameter(m) => assert_eq!(
            m,
            "add_bos can only be true for the first conversation turn; call reset() first"
        ),
        other => panic!("unexpected error {other:?}"),
    }
    assert!(chunks.is_empty());
    assert_eq!(g.n_past(), 10);
    state.reset();
    let mut g = state.begin(GenerationKind::Turn { add_bos: true }, 2048, 128, 16, true);
    let (a, _) = g.step(GenEvent::Start, false);
    assert!(matches!(a, GenAction::Tokenize { add_special: true }));
}

#[test]
fn large_n_keep_means_no_shift_and_full_context() {
    let mut state = EngineState::new();
    state.restart_at(99);
    state.set_n_keep(i32::MAX);
    let mut g = state.begin(GenerationKind::AfterMedia, 100, 8, 3, true);
    let (a, _) = g.step(GenEvent::Start, false);
    match done_error(a) {
        ForgeError::InvalidParameter(m) => {
            assert_eq!(m, "context is full at 99 tokens and cannot be shifted")
        }
        other => panic!("unexpected error {other:?}"),
    }
}

#[test]
fn very_negative_n_keep_shifts_without_overflow() {
    let mut state = EngineState::new();
    state.restart_at(99);
    state.set_n_keep(i32::MIN);
    let mut g = state.begin(GenerationKind::AfterMedia, 100, 8, 3, true);
    let (a, _) = g.step(GenEvent::Start, false);
    // (99 - i32::MIN) / 2 = 1073741873 positions are dropped after the
    // preserved prefix.
    assert!(matches!(
        a,
        GenAction::Shift(ShiftPlan { keep: i32::MIN, discard: 1073741873, end: 99 })
    ));
}

#[test]
fn machine_says_which_outcome_it_awaits() {
    let mut g = EngineState::new().begin(GenerationKind::Turn { add_bos: false }, 100, 4, 4, true);
    assert!(g.awaits(&GenEvent::Start));
    assert!(!g.awaits(&GenEvent::Accepted));
    g.step(GenEvent::Start, false);
    assert!(g.awaits(&GenEvent::Tokenized(Ok(vec![]))));
    assert!(!g.awaits(&GenEvent::Decoded(0)));
    g.step(GenEvent::Tokenized(Ok(vec![5, 6, 7])), false);
    assert_eq!(g.prompt(), &vec![5, 6, 7]);
    assert!(g.awaits(&GenEvent::Decoded(0)));
}

#[test]
fn second_turn_appends_to_the_context() {
    let mut state = EngineState::new();
    let mut g = state.begin(GenerationKind::Turn { add_bos: true }, 100, 8, 1, true);
    g.step(GenEvent::Start, false);
    g.step(GenEvent::Tokenized(Ok(vec![1, 2, 3])), false);
    g.step(GenEvent::Decoded(0), false);
    g.step(GenEvent::Sampled { token: 2, is_eog: true, piece: Vec::new() }, false);
    let (a, _) = g.step(GenEvent::Decoded(0), false);
    assert_eq!(done_text(a), "");
    state.absorb(&g);
    assert_eq!(state.n_past(), 4);
    assert_eq!(state.last_eog_token(), Some(2));
    assert!(!state.is_first_turn());

    let mut g = state.begin(GenerationKind::Turn { add_bos: false }, 100, 8, 1, true);
    let (a, _) = g.step(GenEvent::Start, false);
    assert!(matches!(a, GenAction::Tokenize { add_special: false }));
    let (a, _) = g.step(GenEvent::Tokenized(Ok(vec![4, 5])), false);
    assert!(matches!(a, GenAction::DecodePrompt { start: 0, end: 2, pos: 4 }));
    g.step(GenEvent::Decoded(0), false);
    assert_eq!(g.n_past(), 6);
}

#[test]
fn media_prompt_tokens_are_accepted_before_sampling() {
    let mut state = EngineState::new();
    state.restart_at(40);
    let mut g = state.begin_after_media(100, 8, 2, true, vec![11, 12, 13]);
    let (a, _) = g.step(GenEvent::Start, false);
    assert!(matches!(a, GenAction::AcceptPrompt { start: 0, end: 3 }));
    assert_eq!(&g.prompt()[0..3], &[11, 12, 13]);
    let (a, _) = g.step(GenEvent::Accepted, false);
    assert!(matches!(a, GenAction::Sample));
    assert_eq!(g.n_past(), 40);
}

#[test]
fn batch_size_only_matters_once_there_are_tokens() {
    // A later turn asking for special tokens is refused whatever the batch
    // size, before any tokenization.
    let mut state = EngineState::new();
    state.restart_at(5);
    let mut g = state.begin(GenerationKind::Turn { add_bos: true }, 100, 0, 4, true);
    let (a, _) = g.step(GenEvent::Start, false);
    assert!(matches!(done_error(a), ForgeError::InvalidParameter(_)));
    // A batch size beyond i32::MAX takes the whole prompt in one chunk.
    let mut g = EngineState::new().begin(GenerationKind::Turn { add_bos: false }, 100, u32::MAX, 4, true);
    g.step(GenEvent::Start, false);
    let (a, _) = g.step(GenEvent::Tokenized(Ok(vec![1, 2, 3, 4, 5])), false);
    assert!(matches!(a, GenAction::DecodePrompt { start: 0, end: 5, pos: 0 }));
}
