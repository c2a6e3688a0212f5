//! forge_core: the verified core of an on-device inference runtime.
//!
//! The library holds the bookkeeping and decision logic of the runtime:
//! memory budgets, batch assembly, context shifting, image validation,
//! incremental UTF-8 decoding of generated text, backend reference counting,
//! the frame geometry of the audio vocoder and the generation state machine.
//! The native inference backend itself is driven from outside the library,
//! which performs the actions this crate decides on and reports the outcomes
//! back.

pub mod memory;

pub use memory::MemoryTracker;
pub mod error;
pub mod text;

pub use error::ForgeError;
pub mod multimodal;
pub mod utf8_stream;
pub mod batch;

pub use batch::BatchArena;
pub mod backend;
pub mod context;

pub use context::ContextParams;
pub mod engine;
pub mod model;
pub mod types;

pub use model::{LlamaModel, ModelParams};
pub use types::{AudioFormat, EncoderCapabilities, ImageInput, MediaEncoder, MediaMarker};
pub use multimodal::MultimodalParams;
pub mod ffi;
pub mod vocoder;
