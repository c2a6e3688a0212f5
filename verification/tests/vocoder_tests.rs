use forge_core::vocoder::{IstftLayout, DEFAULT_HOP_LENGTH, DEFAULT_N_FFT, DEFAULT_SAMPLE_RATE};
use forge_core::ForgeError;

fn invalid_message(e: ForgeError) -> String {
    match e {
        ForgeError::InvalidParameter(m) => m,
        other => panic!("unexpected error {other:?}"),
    }
}

#[test]
fn default_layout_matches_the_audio_model() {
    let layout = IstftLayout::new_default();
    assert_eq!(layout.n_fft(), DEFAULT_N_FFT);
    assert_eq!(layout.hop_length(), DEFAULT_HOP_LENGTH);
    assert_eq!(layout.n_fft_bins(), 641);
    assert_eq!(layout.embedding_size(), 1282);
    assert_eq!(DEFAULT_SAMPLE_RATE, 24000);
}

#[test]
fn frame_length_is_checked() {
    let layout = IstftLayout::new(8, 2);
    assert!(layout.check_frame(10).is_ok());
    assert_eq!(
        invalid_message(layout.check_frame(9).unwrap_err()),
        "Expected 10 values (5*2), got 9"
    );
}

#[test]
fn embedding_length_is_checked() {
    let layout = IstftLayout::new(8, 2);
    assert_eq!(layout.check_embedding(10).unwrap(), 5);
    assert_eq!(
        invalid_message(layout.check_embedding(7).unwrap_err()),
        "Embedding size must be even, got 7"
    );
    assert_eq!(
        invalid_message(layout.check_embedding(12).unwrap_err()),
        "Expected 5 frequency bins, got 6"
    );
}

#[test]
fn start_padding_is_dropped_once() {
    // (8 - 2) / 2 = 3 samples of padding, taken from hops of 2 samples.
    let mut layout = IstftLayout::new(8, 2);
    assert_eq!(layout.take_padding(2), 2);
    assert_eq!(layout.take_padding(2), 1);
    assert_eq!(layout.take_padding(2), 0);
    layout.reset();
    assert_eq!(layout.take_padding(5), 3);
}

#[test]
fn tail_is_drained_in_hops() {
    assert_eq!(IstftLayout::new(8, 3).drain_chunks(), vec![3, 2]);
    assert_eq!(IstftLayout::new(8, 2).drain_chunks(), vec![2, 2, 2]);
    assert_eq!(IstftLayout::new(4, 4).drain_chunks(), Vec::<usize>::new());
    let chunks = IstftLayout::new_default().drain_chunks();
    assert_eq!(chunks.iter().sum::<usize>(), DEFAULT_N_FFT - DEFAULT_HOP_LENGTH);
    assert_eq!(chunks, vec![320, 320, 320]);
}

#[test]
fn only_the_start_padding_is_dropped_over_many_frames() {
    // n_fft 8, hop 2: 3 samples of padding; 4 frames of 2 samples return 5.
    let mut layout = IstftLayout::new(8, 2);
    let mut returned = 0;
    for _ in 0..4 {
        let removed = layout.take_padding(2);
        assert!(removed <= 2);
        returned += 2 - removed;
    }
    assert_eq!(returned, 4 * 2 - 3);
}
