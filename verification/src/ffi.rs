//! The decisions of the C interface: result codes, handle types, and the
//! checks applied to arguments that arrive through raw pointers.

use vstd::prelude::*;
use crate::error::ForgeError;
use crate::multimodal::{valid_image_dims, validated_rgba_len, MAX_ENCODED_IMAGE_BYTES};

verus! {

/// Largest accepted number of embedding values per vocoder call.
pub const MAX_AUDIO_EMBEDDING_VALUES: usize = 1048576;

/// Largest accepted number of audio input samples (ten minutes at 48 kHz).
pub const MAX_AUDIO_SAMPLES: usize = 28800000;

/// Largest accepted context size, in tokens.
pub const MAX_CONTEXT_TOKENS: u32 = 1048576;

/// Largest accepted batch size, in tokens.
pub const MAX_BATCH_TOKENS: u32 = 65536;

/// Largest accepted number of tokens generated per call.
pub const MAX_GENERATED_TOKENS: u32 = 1048576;

/// Largest accepted thread count.
pub const MAX_THREADS: i32 = 1024;

/// Largest accepted top-K value.
pub const MAX_TOP_K: i32 = 1000000;

/// Largest accepted number of GPU layers.
pub const MAX_GPU_LAYERS: i32 = 1000000;

/// Whether the integer parameters of an engine configuration coming through
/// the C interface are in range: each of them is bounded so that nothing
/// derived from it can wrap or exhaust resources. (The floating-point
/// parameters are checked separately.)
pub open spec fn integer_params_valid(
    n_ctx: u32,
    n_batch: u32,
    n_threads: i32,
    max_tokens: u32,
    top_k: i32,
    n_gpu_layers: i32,
) -> bool {
    &&& 1 <= n_ctx <= MAX_CONTEXT_TOKENS
    &&& 1 <= n_batch <= MAX_BATCH_TOKENS
    &&& 1 <= n_threads <= MAX_THREADS
    &&& 1 <= max_tokens <= MAX_GENERATED_TOKENS
    &&& 0 <= top_k <= MAX_TOP_K
    &&& -1 <= n_gpu_layers <= MAX_GPU_LAYERS
}

/// Check the integer parameters of an engine configuration.
pub fn integer_params_ok(
    n_ctx: u32,
    n_batch: u32,
    n_threads: i32,
    max_tokens: u32,
    top_k: i32,
    n_gpu_layers: i32,
) -> (r: bool)
    ensures
        r == integer_params_valid(n_ctx, n_batch, n_threads, max_tokens, top_k, n_gpu_layers),
{
    1 <= n_ctx && n_ctx <= MAX_CONTEXT_TOKENS && 1 <= n_batch && n_batch <= MAX_BATCH_TOKENS && 1
        <= n_threads && n_threads <= MAX_THREADS && 1 <= max_tokens && max_tokens
        <= MAX_GENERATED_TOKENS && 0 <= top_k && top_k <= MAX_TOP_K && -1 <= n_gpu_layers
        && n_gpu_layers <= MAX_GPU_LAYERS
}

/// Opaque type for the engine behind a C handle; never constructed.
pub struct ForgeEngineOpaque {
    _private: [u8; 0],
}

/// Opaque type for the audio decoder behind a C handle; never constructed.
pub struct ForgeAudioDecoderOpaque {
    _private: [u8; 0],
}

/// Result codes of the C interface.
#[derive(PartialEq, Eq, Structural, Debug, Clone, Copy)]
pub enum ForgeResult {
    /// Success
    Success,
    /// Null pointer passed
    NullPointer,
    /// Model load failed
    ModelLoadFailed,
    /// Context creation failed
    ContextCreationFailed,
    /// Multimodal load failed
    MultimodalLoadFailed,
    /// Tokenization failed
    TokenizationFailed,
    /// Decode failed
    DecodeFailed,
    /// Invalid parameter
    InvalidParameter,
    /// Memory budget exceeded
    MemoryExceeded,
    /// Generation was cancelled by the caller
    Cancelled,
    /// Unknown error
    Unknown,
}

/// The numeric value of a result code in the C interface.
pub open spec fn result_value(r: ForgeResult) -> i32 {
    match r {
        ForgeResult::Success => 0,
        ForgeResult::NullPointer => 1,
        ForgeResult::ModelLoadFailed => 2,
        ForgeResult::ContextCreationFailed => 3,
        ForgeResult::MultimodalLoadFailed => 4,
        ForgeResult::TokenizationFailed => 5,
        ForgeResult::DecodeFailed => 6,
        ForgeResult::InvalidParameter => 7,
        ForgeResult::MemoryExceeded => 8,
        ForgeResult::Cancelled => 9,
        ForgeResult::Unknown => 99,
    }
}

impl ForgeResult {
    /// The numeric value of this result code in the C interface.
    pub fn code(&self) -> (r: i32)
        ensures
            r == result_value(*self),
    {
        match self {
            ForgeResult::Success => 0,
            ForgeResult::NullPointer => 1,
            ForgeResult::ModelLoadFailed => 2,
            ForgeResult::ContextCreationFailed => 3,
            ForgeResult::MultimodalLoadFailed => 4,
            ForgeResult::TokenizationFailed => 5,
            ForgeResult::DecodeFailed => 6,
            ForgeResult::InvalidParameter => 7,
            ForgeResult::MemoryExceeded => 8,
            ForgeResult::Cancelled => 9,
            ForgeResult::Unknown => 99,
        }
    }
}

/// The result code of a text generation call.
pub open spec fn text_code(r: Result<String, ForgeError>) -> ForgeResult {
    match r {
        Ok(_) => ForgeResult::Success,
        Err(ForgeError::TokenizationFailed(_)) => ForgeResult::TokenizationFailed,
        Err(ForgeError::DecodeFailed(_)) => ForgeResult::DecodeFailed,
        Err(ForgeError::Cancelled) => ForgeResult::Cancelled,
        Err(_) => ForgeResult::Unknown,
    }
}

/// The result code of a vision generation call.
pub open spec fn vision_code(r: Result<String, ForgeError>) -> ForgeResult {
    match r {
        Ok(_) => ForgeResult::Success,
        Err(ForgeError::InvalidParameter(_)) => ForgeResult::InvalidParameter,
        Err(ForgeError::ImageProcessingFailed(_)) => ForgeResult::MultimodalLoadFailed,
        Err(ForgeError::DecodeFailed(_)) => ForgeResult::DecodeFailed,
        Err(ForgeError::Cancelled) => ForgeResult::Cancelled,
        Err(_) => ForgeResult::Unknown,
    }
}

/// The result code of an audio generation call.
pub open spec fn audio_code(r: Result<String, ForgeError>) -> ForgeResult {
    match r {
        Ok(_) => ForgeResult::Success,
        Err(ForgeError::InvalidParameter(_)) => ForgeResult::InvalidParameter,
        Err(ForgeError::AudioProcessingFailed(_)) => ForgeResult::MultimodalLoadFailed,
        Err(ForgeError::DecodeFailed(_)) => ForgeResult::DecodeFailed,
        Err(ForgeError::Cancelled) => ForgeResult::Cancelled,
        Err(_) => ForgeResult::Unknown,
    }
}

/// The result code of a text generation call.
pub fn text_result_code(r: &Result<String, ForgeError>) -> (c: ForgeResult)
    ensures
        c == text_code(*r),
        // outcomes every generation entry point reports alike
        r is Ok ==> c == ForgeResult::Success,
        *r matches Err(ForgeError::Cancelled) ==> c == ForgeResult::Cancelled,
        *r matches Err(ForgeError::DecodeFailed(_)) ==> c == ForgeResult::DecodeFailed,
{
    match r {
        Ok(_) => ForgeResult::Success,
        Err(ForgeError::TokenizationFailed(_)) => ForgeResult::TokenizationFailed,
        Err(ForgeError::DecodeFailed(_)) => ForgeResult::DecodeFailed,
        Err(ForgeError::Cancelled) => ForgeResult::Cancelled,
        Err(_) => ForgeResult::Unknown,
    }
}

/// The result code of a vision generation call.
pub fn vision_result_code(r: &Result<String, ForgeError>) -> (c: ForgeResult)
    ensures
        c == vision_code(*r),
        // outcomes every generation entry point reports alike
        r is Ok ==> c == ForgeResult::Success,
        *r matches Err(ForgeError::Cancelled) ==> c == ForgeResult::Cancelled,
        *r matches Err(ForgeError::DecodeFailed(_)) ==> c == ForgeResult::DecodeFailed,
{
    match r {
        Ok(_) => ForgeResult::Success,
        Err(ForgeError::InvalidParameter(_)) => ForgeResult::InvalidParameter,
        Err(ForgeError::ImageProcessingFailed(_)) => ForgeResult::MultimodalLoadFailed,
        Err(ForgeError::DecodeFailed(_)) => ForgeResult::DecodeFailed,
        Err(ForgeError::Cancelled) => ForgeResult::Cancelled,
        Err(_) => ForgeResult::Unknown,
    }
}

/// The result code of an audio generation call.
pub fn audio_result_code(r: &Result<String, ForgeError>) -> (c: ForgeResult)
    ensures
        c == audio_code(*r),
        // outcomes every generation entry point reports alike
        r is Ok ==> c == ForgeResult::Success,
        *r matches Err(ForgeError::Cancelled) ==> c == ForgeResult::Cancelled,
        *r matches Err(ForgeError::DecodeFailed(_)) ==> c == ForgeResult::DecodeFailed,
{
    match r {
        Ok(_) => ForgeResult::Success,
        Err(ForgeError::InvalidParameter(_)) => ForgeResult::InvalidParameter,
        Err(ForgeError::AudioProcessingFailed(_)) => ForgeResult::MultimodalLoadFailed,
        Err(ForgeError::DecodeFailed(_)) => ForgeResult::DecodeFailed,
        Err(ForgeError::Cancelled) => ForgeResult::Cancelled,
        Err(_) => ForgeResult::Unknown,
    }
}

/// Law: success, cancellation and decode failures are reported alike by
/// every generation entry point (text, vision and audio): with code 0, 9
/// and 6 respectively.
pub proof fn lemma_common_result_codes(r: Result<String, ForgeError>)
    ensures
        r is Ok ==> text_code(r) == ForgeResult::Success && vision_code(r) == ForgeResult::Success
            && audio_code(r) == ForgeResult::Success && result_value(ForgeResult::Success) == 0,
        r matches Err(ForgeError::Cancelled) ==> text_code(r) == ForgeResult::Cancelled
            && vision_code(r) == ForgeResult::Cancelled && audio_code(r) == ForgeResult::Cancelled
            && result_value(ForgeResult::Cancelled) == 9,
        r matches Err(ForgeError::DecodeFailed(_)) ==> text_code(r) == ForgeResult::DecodeFailed
            && vision_code(r) == ForgeResult::DecodeFailed && audio_code(r)
            == ForgeResult::DecodeFailed && result_value(ForgeResult::DecodeFailed) == 6,
{
}

/// Whether an encoded image of `len` bytes is accepted.
pub fn encoded_image_len_ok(len: usize) -> (r: bool)
    ensures
        r == (0 < len <= MAX_ENCODED_IMAGE_BYTES),
{
    len != 0 && len <= MAX_ENCODED_IMAGE_BYTES
}

/// Whether `len` bytes of RGBA data are accepted for an image of the given
/// dimensions.
pub fn rgba_input_ok(width: u32, height: u32, len: usize) -> (r: bool)
    ensures
        r == (valid_image_dims(width, height) && len == 4 * (width * height)),
{
    match validated_rgba_len(width, height) {
        Ok(expected) => len == expected,
        Err(_) => false,
    }
}

/// Whether `n` audio input samples are accepted.
pub fn audio_samples_ok(n: usize) -> (r: bool)
    ensures
        r == (0 < n <= MAX_AUDIO_SAMPLES),
{
    n != 0 && n <= MAX_AUDIO_SAMPLES
}

/// Whether `n` embedding values are accepted for one vocoder call.
pub fn embedding_len_ok(n: usize) -> (r: bool)
    ensures
        r == (0 < n <= MAX_AUDIO_EMBEDDING_VALUES),
{
    n != 0 && n <= MAX_AUDIO_EMBEDDING_VALUES
}

/// How many of `available` samples are written to a buffer holding
/// `capacity` samples.
pub fn samples_to_write(available: usize, capacity: usize) -> (r: usize)
    ensures
        r == if available < capacity {
            available
        } else {
            capacity
        },
{
    if available < capacity {
        available
    } else {
        capacity
    }
}

/// Audio output configuration.
#[derive(Debug, Clone, Copy)]
pub struct ForgeAudioConfig {
    /// FFT size (default: 1280)
    pub n_fft: u32,
    /// Hop length in samples (default: 320)
    pub hop_length: u32,
    /// Sample rate in Hz (default: 24000)
    pub sample_rate: u32,
}

impl Default for ForgeAudioConfig {
    fn default() -> (r: Self)
        ensures
            r.n_fft == 1280,
            r.hop_length == 320,
            r.sample_rate == 24000,
    {
        ForgeAudioConfig { n_fft: 1280, hop_length: 320, sample_rate: 24000 }
    }
}

} // verus!
