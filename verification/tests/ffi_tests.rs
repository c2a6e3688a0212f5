use forge_core::ffi::{
    audio_result_code, audio_samples_ok, embedding_len_ok, encoded_image_len_ok, integer_params_ok,
    rgba_input_ok,
    samples_to_write, text_result_code, vision_result_code, ForgeAudioConfig, ForgeResult,
};
use forge_core::ForgeError;

#[test]
fn result_codes_have_c_values() {
    assert_eq!(ForgeResult::Success.code(), 0);
    assert_eq!(ForgeResult::Cancelled.code(), 9);
    assert_eq!(ForgeResult::Unknown.code(), 99);
}

#[test]
fn errors_map_to_result_codes() {
    let cancelled: Result<String, ForgeError> = Err(ForgeError::Cancelled);
    assert_eq!(text_result_code(&cancelled), ForgeResult::Cancelled);
    let image: Result<String, ForgeError> =
        Err(ForgeError::ImageProcessingFailed("x".to_string()));
    assert_eq!(vision_result_code(&image), ForgeResult::MultimodalLoadFailed);
    assert_eq!(text_result_code(&image), ForgeResult::Unknown);
    let audio: Result<String, ForgeError> =
        Err(ForgeError::AudioProcessingFailed("x".to_string()));
    assert_eq!(audio_result_code(&audio), ForgeResult::MultimodalLoadFailed);
    let ok: Result<String, ForgeError> = Ok(String::new());
    assert_eq!(audio_result_code(&ok), ForgeResult::Success);
    let tok: Result<String, ForgeError> = Err(ForgeError::TokenizationFailed("t".to_string()));
    assert_eq!(text_result_code(&tok), ForgeResult::TokenizationFailed);
    assert_eq!(vision_result_code(&tok), ForgeResult::Unknown);
}

#[test]
fn argument_checks() {
    assert!(!encoded_image_len_ok(0));
    assert!(encoded_image_len_ok(64 * 1024 * 1024));
    assert!(!encoded_image_len_ok(64 * 1024 * 1024 + 1));
    assert!(rgba_input_ok(2, 2, 16));
    assert!(!rgba_input_ok(2, 2, 15));
    assert!(!rgba_input_ok(0, 2, 0));
    assert!(audio_samples_ok(48_000 * 60 * 10));
    assert!(!audio_samples_ok(48_000 * 60 * 10 + 1));
    assert!(!embedding_len_ok(0));
    assert!(embedding_len_ok(1282));
    assert_eq!(samples_to_write(320, 100), 100);
    assert_eq!(samples_to_write(10, 100), 10);
}

#[test]
fn audio_config_defaults() {
    let c = ForgeAudioConfig::default();
    assert_eq!((c.n_fft, c.hop_length, c.sample_rate), (1280, 320, 24000));
}

#[test]
fn integer_parameter_bounds() {
    // The defaults of the C interface: n_ctx 2048, n_batch 128, 2 threads,
    // 128 tokens, top-K 40, all GPU layers.
    assert!(integer_params_ok(2048, 128, 2, 128, 40, -1));
    assert!(!integer_params_ok(2048, u32::MAX, 2, 128, 40, -1));
    assert!(!integer_params_ok(0, 128, 2, 128, 40, -1));
    assert!(integer_params_ok(1048576, 65536, 1024, 1048576, 1000000, 1000000));
    assert!(!integer_params_ok(1048577, 128, 2, 128, 40, -1));
    assert!(!integer_params_ok(2048, 128, 0, 128, 40, -1));
    assert!(!integer_params_ok(2048, 128, 2, 0, 40, -1));
    assert!(!integer_params_ok(2048, 128, 2, 128, -1, -1));
    assert!(!integer_params_ok(2048, 128, 2, 128, 40, -2));
}
