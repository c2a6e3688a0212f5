//! Error types for forge_core.

use vstd::prelude::*;

verus! {

/// Errors that can occur during inference operations.
///
/// Errors that the native layer reports through std error types carry the
/// plain data of those errors: the position of an interior NUL byte, the
/// length of the valid UTF-8 prefix, or the text of an I/O error.
#[derive(Debug)]
pub enum ForgeError {
    /// Failed to load the model file
    ModelLoadFailed { path: String, reason: String },
    /// Failed to create inference context
    ContextCreationFailed(String),
    /// Failed to load CLIP/multimodal model
    MultimodalLoadFailed { path: String, reason: String },
    /// Memory budget would be exceeded
    MemoryBudgetExceeded { requested_mb: usize, available_mb: usize },
    /// Tokenization failed
    TokenizationFailed(String),
    /// Decode/inference failed
    DecodeFailed(i32),
    /// Generation was cancelled by the caller
    Cancelled,
    /// Image processing failed
    ImageProcessingFailed(String),
    /// Audio processing failed
    AudioProcessingFailed(String),
    /// Invalid parameter
    InvalidParameter(String),
    /// Null pointer returned from the native API
    NullPointer { context: String },
    /// C string conversion error: position of the interior NUL byte
    CStringError { nul_position: usize },
    /// UTF-8 conversion error: length of the valid prefix
    Utf8Error { valid_up_to: usize },
    /// IO error, with its description
    IoError(String),
}

} // verus!
