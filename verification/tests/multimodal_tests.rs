use forge_core::multimodal::{
    audio_rate_from_native, chunk_kind, media_error, ChunkKind, DecodeFailure, decode_vision_image, finish_decoded_image, plan_eval_batches,
    rgba_to_rgb, validated_pixel_count, validated_rgba_len, EvalBatch, MultimodalParams,
    MAX_IMAGE_DIMENSION,
};
use forge_core::types::ImageInput;
use forge_core::ForgeError;

fn image_message(e: ForgeError) -> String {
    match e {
        ForgeError::ImageProcessingFailed(m) => m,
        other => panic!("unexpected error {other:?}"),
    }
}

#[test]
fn validates_normal_rgba_size() {
    assert_eq!(validated_rgba_len(1920, 1080).unwrap(), 1920 * 1080 * 4);
}

#[test]
fn rejects_zero_and_excessive_dimensions() {
    assert!(validated_rgba_len(0, 1080).is_err());
    assert!(validated_rgba_len(MAX_IMAGE_DIMENSION + 1, 1).is_err());
}

#[test]
fn rejects_pixel_counts_that_used_to_wrap_u32() {
    assert!(validated_rgba_len(65_536, 65_536).is_err());
}

#[test]
fn dimension_errors_explain_themselves() {
    assert_eq!(
        image_message(validated_pixel_count(0, 5).unwrap_err()),
        "Image dimensions must be non-zero"
    );
    assert_eq!(
        image_message(validated_pixel_count(16_385, 5).unwrap_err()),
        "Image dimensions exceed the 16384 pixel limit"
    );
    assert_eq!(
        image_message(validated_pixel_count(16_384, 16_384).unwrap_err()),
        "Image contains 268435456 pixels; the limit is 32000000"
    );
    assert_eq!(validated_pixel_count(16_384, 1_953).unwrap(), 31_997_952);
}

#[test]
fn rgba_is_converted_to_rgb() {
    let rgba = vec![1, 2, 3, 4, 5, 6, 7, 8];
    assert_eq!(rgba_to_rgb(2, 1, &rgba).unwrap(), vec![1, 2, 3, 5, 6, 7]);
}

#[test]
fn rgba_of_wrong_size_is_refused() {
    let rgba = vec![0u8; 7];
    assert_eq!(
        image_message(rgba_to_rgb(2, 1, &rgba).unwrap_err()),
        "Expected 8 bytes for 2x1 RGBA, got 7"
    );
    assert!(rgba_to_rgb(0, 1, &[]).is_err());
}

#[test]
fn eval_batches_cover_chunk_in_order() {
    let plan = plan_eval_batches(5, 10, 2, true);
    assert_eq!(
        plan,
        vec![
            EvalBatch { first: 0, count: 2, pos: 10, logits_last: false },
            EvalBatch { first: 2, count: 2, pos: 12, logits_last: false },
            EvalBatch { first: 4, count: 1, pos: 14, logits_last: true },
        ]
    );
    assert!(plan_eval_batches(0, 3, 4, true).is_empty());
    let plan = plan_eval_batches(4, 0, 4, false);
    assert_eq!(plan, vec![EvalBatch { first: 0, count: 4, pos: 0, logits_last: false }]);
}

#[test]
fn native_audio_rate_sign_means_support() {
    assert_eq!(audio_rate_from_native(-1), None);
    assert_eq!(audio_rate_from_native(16_000), Some(16_000));
}

#[test]
fn multimodal_defaults() {
    let p = MultimodalParams::default();
    assert!(p.use_gpu);
    assert_eq!(p.n_threads, 2);
    assert!(!p.print_timings);
    assert!(p.warmup);
}

const TWO_PIXEL_PNG: [u8; 71] = [
    0x89, 0x50, 0x4e, 0x47, 0x0d, 0x0a, 0x1a, 0x0a, 0x00, 0x00, 0x00, 0x0d, 0x49, 0x48, 0x44,
    0x52, 0x00, 0x00, 0x00, 0x02, 0x00, 0x00, 0x00, 0x01, 0x08, 0x06, 0x00, 0x00, 0x00, 0xf4,
    0x22, 0x7f, 0x8a, 0x00, 0x00, 0x00, 0x0e, 0x49, 0x44, 0x41, 0x54, 0x78, 0x9c, 0x63, 0xf8,
    0xcf, 0xc0, 0x00, 0x42, 0x0d, 0x00, 0x0f, 0x7a, 0x03, 0x7e, 0x77, 0xe9, 0x7f, 0x97, 0x00,
    0x00, 0x00, 0x00, 0x49, 0x45, 0x4e, 0x44, 0xae, 0x42, 0x60, 0x82,
];

#[test]
fn png_is_decoded_to_rgba() {
    let image = decode_vision_image(&TWO_PIXEL_PNG).unwrap();
    assert_eq!(image.width, 2);
    assert_eq!(image.height, 1);
    assert_eq!(image.rgba_data, vec![255, 0, 0, 255, 0, 0, 255, 128]);
    assert!(image.is_valid());
}

#[test]
fn encoded_image_size_is_checked() {
    assert_eq!(
        image_message(decode_vision_image(&[]).unwrap_err()),
        "Encoded image size must be between 1 byte and 64 MiB"
    );
}

#[test]
fn undecodable_image_is_an_image_error() {
    let msg = image_message(decode_vision_image(&[1, 2, 3, 4]).unwrap_err());
    assert!(msg.starts_with("Failed to decode image"), "{msg}");
}

#[test]
fn decoded_images_with_too_many_pixels_are_refused() {
    let msg = image_message(finish_decoded_image(Ok((8000, 5000, Vec::new()))).unwrap_err());
    assert_eq!(msg, "Image contains 40000000 pixels; the limit is 32000000");
    let msg = image_message(
        finish_decoded_image(Err(DecodeFailure::Decode("bad".to_string()))).unwrap_err(),
    );
    assert_eq!(msg, "Failed to decode image: bad");
    let msg = image_message(
        finish_decoded_image(Err(DecodeFailure::Inspect("io".to_string()))).unwrap_err(),
    );
    assert_eq!(msg, "Failed to inspect image: io");
    let ok: ImageInput = finish_decoded_image(Ok((1, 1, vec![9, 9, 9, 9]))).unwrap();
    assert_eq!(ok.rgba_data, vec![9, 9, 9, 9]);
}

#[test]
fn chunk_types_are_classified() {
    assert_eq!(chunk_kind(0).unwrap(), ChunkKind::Text);
    assert_eq!(chunk_kind(1).unwrap(), ChunkKind::Image);
    assert_eq!(chunk_kind(2).unwrap(), ChunkKind::Audio);
    assert_eq!(image_message(chunk_kind(7).unwrap_err()), "Unknown chunk type: 7");
    assert!(matches!(
        media_error(ChunkKind::Audio, "x".to_string()),
        ForgeError::AudioProcessingFailed(m) if m == "x"
    ));
    assert!(matches!(
        media_error(ChunkKind::Image, "y".to_string()),
        ForgeError::ImageProcessingFailed(m) if m == "y"
    ));
}

#[test]
fn chunks_are_evaluated_in_order_at_running_positions() {
    let mut seq = forge_core::multimodal::ChunkSequence::new(3, 10);
    assert_eq!(seq.next_chunk(), Some((0, false)));
    seq.evaluated(4);
    assert_eq!(seq.n_past(), 14);
    assert_eq!(seq.next_chunk(), Some((1, false)));
    seq.evaluated(64);
    assert_eq!(seq.next_chunk(), Some((2, true)));
    seq.evaluated(2);
    assert_eq!(seq.next_chunk(), None);
    assert_eq!(seq.n_past(), 80);
    let empty = forge_core::multimodal::ChunkSequence::new(0, 7);
    assert_eq!(empty.next_chunk(), None);
    assert_eq!(empty.n_past(), 7);
}

#[test]
fn audio_support_and_samples_are_checked() {
    let unsupported = forge_core::multimodal::check_audio_support(false).unwrap_err();
    assert!(matches!(unsupported, ForgeError::AudioProcessingFailed(m) if m == "This model does not support audio input"));
    assert!(forge_core::multimodal::check_audio_support(true).is_ok());
    let empty = forge_core::multimodal::check_audio_input(true, 0).unwrap_err();
    assert!(matches!(empty, ForgeError::AudioProcessingFailed(m) if m == "Empty audio samples"));
    assert!(forge_core::multimodal::check_audio_input(true, 3).is_ok());
}

#[test]
fn oversized_encoded_image_is_refused_with_the_size_message() {
    let big = vec![0u8; 64 * 1024 * 1024 + 1];
    assert_eq!(
        image_message(decode_vision_image(&big).unwrap_err()),
        "Encoded image size must be between 1 byte and 64 MiB"
    );
}
