//! Common data structures of multimodal pipelines.

use vstd::prelude::*;

verus! {

/// Raw image data for vision models.
#[derive(Debug, Clone)]
pub struct ImageInput {
    /// Image width in pixels
    pub width: u32,
    /// Image height in pixels
    pub height: u32,
    /// Raw RGBA pixel data (4 bytes per pixel)
    pub rgba_data: Vec<u8>,
}

impl ImageInput {
    /// Create a new image input from RGBA data.
    pub fn new(width: u32, height: u32, rgba_data: Vec<u8>) -> (r: Self)
        ensures
            r.width == width,
            r.height == height,
            r.rgba_data@ == rgba_data@,
    {
        ImageInput { width, height, rgba_data }
    }

    /// Whether the data holds exactly four bytes per pixel. The byte count
    /// is computed in `u128`, where it cannot overflow for any dimensions.
    pub fn is_valid(&self) -> (r: bool)
        ensures
            r == (self.rgba_data@.len() == 4 * self.width * self.height),
    {
        let w = self.width as u128;
        let h = self.height as u128;
        assert(w * h <= 0xffff_ffffu128 * 0xffff_ffffu128) by (nonlinear_arith)
            requires
                w <= 0xffff_ffffu128,
                h <= 0xffff_ffffu128,
        ;
        let expected: u128 = 4 * (w * h);
        assert(4 * (w * h) == 4 * w * h) by (nonlinear_arith);
        (self.rgba_data.len() as u128) == expected
    }
}

/// Audio format for output.
#[derive(Debug, Clone, Copy)]
pub struct AudioFormat {
    /// Sample rate in Hz (e.g., 24000)
    pub sample_rate: u32,
    /// Number of channels (1 = mono, 2 = stereo)
    pub channels: u8,
}

impl Default for AudioFormat {
    fn default() -> (r: Self)
        ensures
            r.sample_rate == 0,
            r.channels == 0,
    {
        AudioFormat { sample_rate: 0, channels: 0 }
    }
}

/// Marker string for media in prompts (e.g., "<|image_start|>").
pub type MediaMarker = String;

/// Capability flags for encoders.
#[derive(Debug, Clone, Copy)]
pub struct EncoderCapabilities {
    /// Supports vision/image input
    pub vision: bool,
    /// Supports audio input
    pub audio: bool,
    /// Supports audio output (speech-to-speech)
    pub audio_output: bool,
}

impl Default for EncoderCapabilities {
    fn default() -> (r: Self)
        ensures
            !r.vision,
            !r.audio,
            !r.audio_output,
    {
        EncoderCapabilities { vision: false, audio: false, audio_output: false }
    }
}

/// Trait for querying encoder capabilities: encoders advertise the media
/// marker used in prompts and the media types they support.
pub trait MediaEncoder {
    /// Returns the media marker string used in prompts.
    fn media_marker(&self) -> MediaMarker;

    /// Returns the capabilities of this encoder.
    fn capabilities(&self) -> EncoderCapabilities;
}

} // verus!
