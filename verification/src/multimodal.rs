//! Multimodal input preparation: image limits, pixel conversion, and
//! parameters of the multimodal (projector) context.

use vstd::prelude::*;
use vstd::string::*;
use crate::error::ForgeError;
use crate::text::{decimal, u64_to_decimal};
use crate::types::ImageInput;

verus! {

/// Largest accepted image width or height, in pixels.
pub const MAX_IMAGE_DIMENSION: u32 = 16384;

/// Largest accepted number of pixels in one image.
pub const MAX_IMAGE_PIXELS: u64 = 32000000;

/// Whether an image of the given dimensions is accepted.
pub open spec fn valid_image_dims(width: u32, height: u32) -> bool {
    &&& width != 0
    &&& height != 0
    &&& width <= MAX_IMAGE_DIMENSION
    &&& height <= MAX_IMAGE_DIMENSION
    &&& width * height <= MAX_IMAGE_PIXELS
}

/// The message that explains why an image of the given dimensions is
/// refused (meaningful when `!valid_image_dims(width, height)`).
pub open spec fn image_dims_message(width: u32, height: u32) -> Seq<char> {
    if width == 0 || height == 0 {
        "Image dimensions must be non-zero"@
    } else if width > MAX_IMAGE_DIMENSION || height > MAX_IMAGE_DIMENSION {
        "Image dimensions exceed the 16384 pixel limit"@
    } else {
        too_many_pixels_message((width * height) as nat)
    }
}

/// The message for an image with more pixels than the limit.
pub open spec fn too_many_pixels_message(pixels: nat) -> Seq<char> {
    "Image contains "@ + decimal(pixels) + " pixels; the limit is 32000000"@
}

/// Whether `e` is an image-processing error carrying message `msg`.
pub open spec fn is_image_error(e: ForgeError, msg: Seq<char>) -> bool {
    e matches ForgeError::ImageProcessingFailed(m) && m@ == msg
}

/// Check image dimensions against the limits and return the pixel count.
pub fn validated_pixel_count(width: u32, height: u32) -> (r: Result<usize, ForgeError>)
    ensures
        match r {
            Ok(n) => valid_image_dims(width, height) && n == width * height,
            Err(e) => !valid_image_dims(width, height) && is_image_error(
                e,
                image_dims_message(width, height),
            ),
        },
{
    if width == 0 || height == 0 {
        return Err(ForgeError::ImageProcessingFailed(
            String::from_str("Image dimensions must be non-zero"),
        ));
    }
    if width > MAX_IMAGE_DIMENSION || height > MAX_IMAGE_DIMENSION {
        return Err(ForgeError::ImageProcessingFailed(
            String::from_str("Image dimensions exceed the 16384 pixel limit"),
        ));
    }
    assert(width * height <= 16384 * 16384) by (nonlinear_arith)
        requires
            width <= 16384,
            height <= 16384,
    ;
    let pixels: u64 = (width as u64) * (height as u64);
    if pixels > MAX_IMAGE_PIXELS {
        let msg = String::from_str("Image contains ");
        let digits = u64_to_decimal(pixels);
        let msg = msg.concat(digits.as_str());
        let msg = msg.concat(" pixels; the limit is 32000000");
        return Err(ForgeError::ImageProcessingFailed(msg));
    }
    Ok(pixels as usize)
}

/// Check image dimensions against the limits and return the length of an
/// RGBA buffer (four bytes per pixel) for that image.
pub fn validated_rgba_len(width: u32, height: u32) -> (r: Result<usize, ForgeError>)
    ensures
        match r {
            Ok(n) => valid_image_dims(width, height) && n == 4 * (width * height),
            Err(e) => !valid_image_dims(width, height) && is_image_error(
                e,
                image_dims_message(width, height),
            ),
        },
{
    let pixels = validated_pixel_count(width, height)?;
    Ok(pixels * 4)
}

/// Parameters for the multimodal context.
#[derive(Debug, Clone, Copy)]
pub struct MultimodalParams {
    /// Use GPU for image processing
    pub use_gpu: bool,
    /// Number of threads for CPU processing
    pub n_threads: i32,
    /// Print timing information
    pub print_timings: bool,
    /// Warmup (compile GPU pipelines on init)
    pub warmup: bool,
}

impl Default for MultimodalParams {
    fn default() -> (r: Self)
        ensures
            r.use_gpu,
            r.n_threads == 2,
            !r.print_timings,
            r.warmup,
    {
        MultimodalParams { use_gpu: true, n_threads: 2, print_timings: false, warmup: true }
    }
}

/// The RGB bytes of the first `n` pixels of RGBA data: the alpha byte of
/// each pixel is dropped.
pub open spec fn rgb_of(rgba: Seq<u8>, n: int) -> Seq<u8> {
    Seq::new((3 * n) as nat, |j: int| rgba[(j / 3) * 4 + j % 3])
}

/// The message for RGBA data whose size does not match the dimensions.
pub open spec fn rgba_size_message(expected: int, width: u32, height: u32, got: int) -> Seq<
    char,
> {
    "Expected "@ + decimal(expected as nat) + " bytes for "@ + decimal(width as nat) + "x"@
        + decimal(height as nat) + " RGBA, got "@ + decimal(got as nat)
}

/// Validate RGBA pixel data against its dimensions and convert it to the
/// RGB layout the image encoder expects.
pub fn rgba_to_rgb(width: u32, height: u32, rgba_data: &[u8]) -> (r: Result<Vec<u8>, ForgeError>)
    ensures
        match r {
            Ok(rgb) => {
                &&& valid_image_dims(width, height)
                &&& rgba_data@.len() == 4 * (width * height)
                &&& rgb@ == rgb_of(rgba_data@, width * height)
                // pixel by pixel: the three colour bytes, the alpha byte dropped
                &&& rgb@.len() == 3 * (width * height)
                &&& forall|p: int, c: int|
                    0 <= p < width * height && 0 <= c < 3 ==> #[trigger] rgb@[3 * p + c]
                        == rgba_data@[4 * p + c]
            },
            Err(e) => if !valid_image_dims(width, height) {
                is_image_error(e, image_dims_message(width, height))
            } else {
                &&& rgba_data@.len() != 4 * (width * height)
                &&& is_image_error(
                    e,
                    rgba_size_message(
                        4 * (width * height),
                        width,
                        height,
                        rgba_data@.len() as int,
                    ),
                )
            },
        },
{
    let expected = validated_rgba_len(width, height)?;
    if rgba_data.len() != expected {
        let msg = String::from_str("Expected ");
        let msg = msg.concat(u64_to_decimal(expected as u64).as_str());
        let msg = msg.concat(" bytes for ");
        let msg = msg.concat(u64_to_decimal(width as u64).as_str());
        let msg = msg.concat("x");
        let msg = msg.concat(u64_to_decimal(height as u64).as_str());
        let msg = msg.concat(" RGBA, got ");
        let msg = msg.concat(u64_to_decimal(rgba_data.len() as u64).as_str());
        return Err(ForgeError::ImageProcessingFailed(msg));
    }
    let pixel_count = validated_pixel_count(width, height)?;
    let mut rgb: Vec<u8> = Vec::with_capacity(pixel_count * 3);
    let mut i: usize = 0;
    while i < pixel_count
        invariant
            i <= pixel_count,
            pixel_count == width * height,
            pixel_count <= MAX_IMAGE_PIXELS,
            rgba_data@.len() == 4 * pixel_count,
            rgb@ == rgb_of(rgba_data@, i as int),
        decreases pixel_count - i,
    {
        let r = rgba_data[i * 4];
        let g = rgba_data[i * 4 + 1];
        let b = rgba_data[i * 4 + 2];
        rgb.push(r);
        rgb.push(g);
        rgb.push(b);
        proof {
            let n = i as int;
            assert((3 * n) / 3 == n && (3 * n) % 3 == 0);
            assert((3 * n + 1) / 3 == n && (3 * n + 1) % 3 == 1);
            assert((3 * n + 2) / 3 == n && (3 * n + 2) % 3 == 2);
            assert(rgb@ =~= rgb_of(rgba_data@, n + 1));
        }
        i = i + 1;
    }
    proof {
        lemma_rgb_pixels(rgba_data@, pixel_count as int);
    }
    Ok(rgb)
}

/// Law: RGB conversion keeps each pixel's colour and drops only its alpha
/// byte: pixel `p` of the result is bytes `4p`, `4p + 1`, `4p + 2` of the
/// input, whatever its alpha.
pub proof fn lemma_rgb_pixels(rgba: Seq<u8>, n: int)
    requires
        0 <= n,
        rgba.len() >= 4 * n,
    ensures
        rgb_of(rgba, n).len() == 3 * n,
        forall|p: int, c: int|
            0 <= p < n && 0 <= c < 3 ==> #[trigger] rgb_of(rgba, n)[3 * p + c] == rgba[4 * p + c],
{
    assert forall|p: int, c: int| 0 <= p < n && 0 <= c < 3 implies #[trigger] rgb_of(rgba, n)[3
        * p + c] == rgba[4 * p + c] by {
        assert((3 * p + c) / 3 == p && (3 * p + c) % 3 == c) by (nonlinear_arith)
            requires
                0 <= c < 3,
        ;
        assert(0 <= 3 * p + c < 3 * n);
    }
}

/// Law: the alpha channel has no effect on RGB conversion: two inputs whose
/// colour bytes agree convert to the same RGB bytes, whatever their alpha
/// bytes hold.
pub proof fn lemma_alpha_is_ignored(x: Seq<u8>, y: Seq<u8>, n: int)
    requires
        0 <= n,
        x.len() >= 4 * n,
        y.len() >= 4 * n,
        forall|p: int, c: int| 0 <= p < n && 0 <= c < 3 ==> #[trigger] x[4 * p + c] == y[4 * p + c],
    ensures
        rgb_of(x, n) == rgb_of(y, n),
{
    lemma_rgb_pixels(x, n);
    lemma_rgb_pixels(y, n);
    assert forall|j: int| 0 <= j < 3 * n implies rgb_of(x, n)[j] == rgb_of(y, n)[j] by {
        let p = j / 3;
        let c = j % 3;
        assert(j == 3 * p + c && 0 <= p < n && 0 <= c < 3) by (nonlinear_arith)
            requires
                0 <= j < 3 * n,
                p == j / 3,
                c == j % 3,
        ;
        assert(rgb_of(x, n)[3 * p + c] == x[4 * p + c]);
        assert(rgb_of(y, n)[3 * p + c] == y[4 * p + c]);
    }
    assert(rgb_of(x, n) =~= rgb_of(y, n));
}

/// One batch of a multimodal chunk's tokens: `count` tokens starting at
/// token `first`, at positions from `pos`; logits are requested for its last
/// token when `logits_last`.
#[derive(PartialEq, Eq, Structural, Debug, Clone, Copy)]
pub struct EvalBatch {
    pub first: usize,
    pub count: usize,
    pub pos: i32,
    pub logits_last: bool,
}

/// How the tokens of a chunk are split into decode batches: full batches of
/// `n_batch` tokens in order, then the remainder, at consecutive positions
/// from `n_past`, with logits for the very last token when `logits_last`.
pub open spec fn is_batch_plan(
    plan: Seq<EvalBatch>,
    n_tokens: int,
    n_past: int,
    n_batch: int,
    logits_last: bool,
) -> bool {
    &&& (plan.len() == 0 <==> n_tokens == 0)
    &&& plan.len() > 0 ==> plan[0].first == 0
    &&& plan.len() > 0 ==> plan.last().first + plan.last().count == n_tokens
    &&& forall|k: int|
        0 <= k < plan.len() ==> {
            &&& 0 < #[trigger] plan[k].count <= n_batch
            &&& plan[k].pos == n_past + plan[k].first
            &&& plan[k].logits_last == (logits_last && k == plan.len() - 1)
        }
    &&& forall|k: int|
        0 <= k < plan.len() - 1 ==> {
            &&& #[trigger] plan[k].count == n_batch
            &&& plan[k + 1].first == plan[k].first + plan[k].count
        }
}

/// Split the `n_tokens` tokens of a chunk into decode batches of at most
/// `n_batch` tokens, starting at position `n_past`.
pub fn plan_eval_batches(n_tokens: usize, n_past: i32, n_batch: i32, logits_last: bool) -> (r: Vec<
    EvalBatch,
>)
    requires
        n_batch > 0,
        n_past + n_tokens <= i32::MAX,
    ensures
        is_batch_plan(r@, n_tokens as int, n_past as int, n_batch as int, logits_last),
{
    let mut plan: Vec<EvalBatch> = Vec::new();
    let mut i: usize = 0;
    let mut pos: i32 = n_past;
    while i < n_tokens
        invariant
            i <= n_tokens,
            pos == n_past + i,
            n_batch > 0,
            n_past + n_tokens <= i32::MAX,
            plan@.len() == 0 <==> i == 0,
            plan@.len() > 0 ==> plan@[0].first == 0,
            plan@.len() > 0 ==> plan@.last().first + plan@.last().count == i,
            forall|k: int|
                0 <= k < plan@.len() ==> {
                    &&& 0 < #[trigger] plan@[k].count <= n_batch
                    &&& plan@[k].pos == n_past + plan@[k].first
                    &&& plan@[k].logits_last == (logits_last && plan@[k].first + plan@[k].count
                        == n_tokens)
                },
            forall|k: int|
                0 <= k < plan@.len() - 1 ==> {
                    &&& #[trigger] plan@[k].count == n_batch
                    &&& plan@[k + 1].first == plan@[k].first + plan@[k].count
                },
            plan@.len() > 0 ==> plan@.last().count == n_batch || i == n_tokens,
        decreases n_tokens - i,
    {
        let remaining = n_tokens - i;
        let count: usize = if remaining < n_batch as usize {
            remaining
        } else {
            n_batch as usize
        };
        let last = i + count == n_tokens;
        plan.push(
            EvalBatch { first: i, count, pos, logits_last: logits_last && last },
        );
        i = i + count;
        pos = pos + count as i32;
    }
    proof {
        assert forall|k: int| 0 <= k < plan@.len() implies #[trigger] plan@[k].logits_last == (
        logits_last && k == plan@.len() - 1) by {
            if k < plan@.len() - 1 {
                lemma_plan_prefix(plan@, k);
            }
        }
    }
    plan
}

proof fn lemma_plan_prefix(plan: Seq<EvalBatch>, k: int)
    requires
        0 <= k < plan.len() - 1,
        forall|j: int| 0 <= j < plan.len() ==> 0 < #[trigger] plan[j].count,
        forall|j: int|
            0 <= j < plan.len() - 1 ==> plan[j + 1].first == plan[j].first + #[trigger] plan[j].count,
    ensures
        plan[k].first + plan[k].count < plan.last().first + plan.last().count,
    decreases plan.len() - k,
{
    if k < plan.len() - 2 {
        lemma_plan_prefix(plan, k + 1);
    }
    assert(plan[k + 1].first == plan[k].first + plan[k].count);
}

/// The kind of a tokenized multimodal input chunk.
#[derive(PartialEq, Eq, Structural, Debug, Clone, Copy)]
pub enum ChunkKind {
    /// Text tokens, decoded as tokens
    Text,
    /// An image, encoded to embeddings first
    Image,
    /// Audio, encoded to embeddings first
    Audio,
}

/// The message for a chunk of a type the runtime does not know.
pub open spec fn unknown_chunk_message(chunk_type: u32) -> Seq<char> {
    "Unknown chunk type: "@ + decimal(chunk_type as nat)
}

/// The kind of a chunk from the native chunk type code (0 text, 1 image,
/// 2 audio); any other code is an error.
pub fn chunk_kind(chunk_type: u32) -> (r: Result<ChunkKind, ForgeError>)
    ensures
        chunk_type == 0 ==> r == Ok::<ChunkKind, ForgeError>(ChunkKind::Text),
        chunk_type == 1 ==> r == Ok::<ChunkKind, ForgeError>(ChunkKind::Image),
        chunk_type == 2 ==> r == Ok::<ChunkKind, ForgeError>(ChunkKind::Audio),
        chunk_type > 2 ==> (r is Err && is_image_error(
            r->Err_0,
            unknown_chunk_message(chunk_type),
        )),
{
    if chunk_type == 0 {
        Ok(ChunkKind::Text)
    } else if chunk_type == 1 {
        Ok(ChunkKind::Image)
    } else if chunk_type == 2 {
        Ok(ChunkKind::Audio)
    } else {
        let msg = String::from_str("Unknown chunk type: ");
        let msg = msg.concat(u64_to_decimal(chunk_type as u64).as_str());
        Err(ForgeError::ImageProcessingFailed(msg))
    }
}

/// Whether `e` is the error a failure with message `msg` while evaluating a
/// chunk of kind `kind` becomes: audio failures are audio-processing
/// errors, all others image-processing errors.
pub open spec fn is_media_error(kind: ChunkKind, e: ForgeError, msg: Seq<char>) -> bool {
    match kind {
        ChunkKind::Audio => e matches ForgeError::AudioProcessingFailed(m) && m@ == msg,
        _ => e matches ForgeError::ImageProcessingFailed(m) && m@ == msg,
    }
}

/// The error a failure with message `msg` while evaluating a chunk of kind
/// `kind` becomes.
pub fn media_error(kind: ChunkKind, msg: String) -> (e: ForgeError)
    ensures
        is_media_error(kind, e, msg@),
{
    match kind {
        ChunkKind::Audio => ForgeError::AudioProcessingFailed(msg),
        _ => ForgeError::ImageProcessingFailed(msg),
    }
}

/// Whether `e` is an audio-processing error carrying message `msg`.
pub open spec fn is_audio_error(e: ForgeError, msg: Seq<char>) -> bool {
    e matches ForgeError::AudioProcessingFailed(m) && m@ == msg
}

/// Check that the projector supports audio input at all.
pub fn check_audio_support(supports_audio: bool) -> (r: Result<(), ForgeError>)
    ensures
        supports_audio ==> r is Ok,
        !supports_audio ==> (r is Err && is_audio_error(
            r->Err_0,
            "This model does not support audio input"@,
        )),
{
    proof {
        reveal_strlit("This model does not support audio input");
    }
    if !supports_audio {
        return Err(ForgeError::AudioProcessingFailed(
            String::from_str("This model does not support audio input"),
        ));
    }
    Ok(())
}

/// Check an audio request before it is tokenized: the projector must
/// support audio input, and there must be samples.
pub fn check_audio_input(supports_audio: bool, n_samples: usize) -> (r: Result<(), ForgeError>)
    ensures
        !supports_audio ==> (r is Err && is_audio_error(
            r->Err_0,
            "This model does not support audio input"@,
        )),
        supports_audio && n_samples == 0 ==> (r is Err && is_audio_error(
            r->Err_0,
            "Empty audio samples"@,
        )),
        supports_audio && n_samples > 0 ==> r is Ok,
{
    proof {
        reveal_strlit("Empty audio samples");
    }
    check_audio_support(supports_audio)?;
    if n_samples == 0 {
        return Err(ForgeError::AudioProcessingFailed(String::from_str("Empty audio samples")));
    }
    Ok(())
}

/// Progress through the tokenized chunks of a multimodal prompt: which
/// chunk comes next, whether it is the last one (its last token gets
/// logits), and the position the next chunk is evaluated at.
#[derive(Debug, Clone, Copy)]
pub struct ChunkSequence {
    n_chunks: usize,
    next: usize,
    n_past: i32,
}

impl ChunkSequence {
    /// Number of chunks.
    pub closed spec fn spec_n_chunks(&self) -> int {
        self.n_chunks as int
    }

    /// Index of the next chunk to evaluate.
    pub closed spec fn spec_next(&self) -> int {
        self.next as int
    }

    /// Position the next chunk is evaluated at.
    pub closed spec fn spec_n_past(&self) -> int {
        self.n_past as int
    }

    /// Well-formedness: the next index never passes the chunk count.
    pub open spec fn wf(&self) -> bool {
        0 <= self.spec_next() <= self.spec_n_chunks()
    }

    /// Evaluate `n_chunks` chunks in order, starting at position `n_past`.
    pub fn new(n_chunks: usize, n_past: i32) -> (r: Self)
        ensures
            r.wf(),
            r.spec_n_chunks() == n_chunks,
            r.spec_next() == 0,
            r.spec_n_past() == n_past,
    {
        ChunkSequence { n_chunks, next: 0, n_past }
    }

    /// The next chunk to evaluate and whether it is the last one; `None`
    /// once every chunk was evaluated.
    pub fn next_chunk(&self) -> (r: Option<(usize, bool)>)
        requires
            self.wf(),
        ensures
            self.spec_next() == self.spec_n_chunks() ==> r is None,
            self.spec_next() < self.spec_n_chunks() ==> r == Some::<(usize, bool)>(
                (self.spec_next() as usize, self.spec_next() == self.spec_n_chunks() - 1),
            ),
    {
        if self.next == self.n_chunks {
            None
        } else {
            Some((self.next, self.next == self.n_chunks - 1))
        }
    }

    /// Position the next chunk is evaluated at (after the last chunk: the
    /// position after all of them).
    pub fn n_past(&self) -> (r: i32)
        ensures
            r == self.spec_n_past(),
    {
        self.n_past
    }

    /// Record that the next chunk was evaluated and took `n_tokens`
    /// positions.
    pub fn evaluated(&mut self, n_tokens: usize)
        requires
            old(self).wf(),
            old(self).spec_next() < old(self).spec_n_chunks(),
            old(self).spec_n_past() + n_tokens <= i32::MAX,
        ensures
            final(self).wf(),
            final(self).spec_n_chunks() == old(self).spec_n_chunks(),
            final(self).spec_next() == old(self).spec_next() + 1,
            final(self).spec_n_past() == old(self).spec_n_past() + n_tokens,
    {
        self.next = self.next + 1;
        let total: i64 = (self.n_past as i64) + (n_tokens as i64);
        self.n_past = total as i32;
    }
}

/// The audio sample rate the native context reports: negative means audio
/// is not supported.
pub fn audio_rate_from_native(rate: i32) -> (r: Option<u32>)
    ensures
        rate < 0 ==> r is None,
        rate >= 0 ==> r == Some(rate as u32),
{
    if rate < 0 {
        None
    } else {
        Some(rate as u32)
    }
}

/// Largest accepted encoded (JPEG/PNG) image, in bytes.
pub const MAX_ENCODED_IMAGE_BYTES: usize = 67108864;

/// Largest allocation the image decoder may make, in bytes.
pub const MAX_DECODER_ALLOCATION_BYTES: u64 = 268435456;

/// Why the `image` crate could not decode an image: the stage that failed
/// and the crate's description of the error.
#[derive(Debug)]
pub enum DecodeFailure {
    /// Inspecting the content to guess the format failed.
    Inspect(String),
    /// Decoding failed (also when a limit was exceeded).
    Decode(String),
}

/// The message of a decoding failure.
pub open spec fn failure_message(f: DecodeFailure) -> Seq<char> {
    match f {
        DecodeFailure::Inspect(m) => "Failed to inspect image: "@ + m@,
        DecodeFailure::Decode(m) => "Failed to decode image: "@ + m@,
    }
}

/// The view of a decoding outcome: width, height and pixels, or the
/// message of the failure.
pub open spec fn decoded_view(d: Result<(u32, u32, Vec<u8>), DecodeFailure>) -> Result<
    (u32, u32, Seq<u8>),
    Seq<char>,
> {
    match d {
        Ok((w, h, px)) => Ok((w, h, px@)),
        Err(f) => Err(failure_message(f)),
    }
}

/// Whether a decoding outcome keeps to the limits the decoder ran with:
/// the sides of a decoded image are at most `max_dim`, and its RGBA buffer
/// holds four bytes per pixel.
pub open spec fn within_decode_limits(d: Result<(u32, u32, Seq<u8>), Seq<char>>, max_dim: u32) -> bool {
    d matches Ok((w, h, px)) ==> w <= max_dim && h <= max_dim && px.len() == 4 * w * h
}

/// Whether `outcome` is one that the `image` crate can give for encoded
/// bytes `data`, decoding with strict width and height limits of `max_dim`
/// and an allocation limit of `max_alloc`. This is a relation, not a
/// function: the crate also consults process-wide hook registries, so the
/// same arguments need not always give the same outcome.
pub uninterp spec fn image_decoding(
    data: Seq<u8>,
    max_dim: u32,
    max_alloc: u64,
    outcome: Result<(u32, u32, Seq<u8>), Seq<char>>,
) -> bool;

/// Decode an encoded (JPEG/PNG) image to RGBA with the `image` crate
/// (`ImageReader::with_guessed_format`, `limits`, `decode`, `to_rgba8`):
/// the format is guessed from the content and decoding runs with the given
/// width, height and allocation limits. The crate checks the dimension
/// limits before decoding, so a decoded image never exceeds them, and the
/// RGBA buffer it returns holds exactly four bytes per pixel. The outcome
/// is one that the crate can give for these arguments (`image_decoding`);
/// it is not stated further, since the crate consults process-wide
/// registries of format-detection and decoding hooks and the same bytes
/// need not always decode alike.
#[verifier::external_body]
fn decode_rgba8(data: &[u8], max_dim: u32, max_alloc: u64) -> (r: Result<(u32, u32, Vec<u8>), DecodeFailure>)
    ensures
        image_decoding(data@, max_dim, max_alloc, decoded_view(r)),
        within_decode_limits(decoded_view(r), max_dim),
{
    let mut reader = match image::ImageReader::new(std::io::Cursor::new(data)).with_guessed_format() {
        Ok(reader) => reader,
        Err(e) => return Err(DecodeFailure::Inspect(e.to_string())),
    };
    let mut limits = image::Limits::default();
    limits.max_image_width = Some(max_dim);
    limits.max_image_height = Some(max_dim);
    limits.max_alloc = Some(max_alloc);
    reader.limits(limits);
    match reader.decode() {
        Ok(img) => Ok((img.width(), img.height(), img.to_rgba8().into_raw())),
        Err(e) => Err(DecodeFailure::Decode(e.to_string())),
    }
}

/// The message for an encoded image of unacceptable size.
pub open spec fn encoded_size_message() -> Seq<char> {
    "Encoded image size must be between 1 byte and 64 MiB"@
}

/// What a vision request makes of a decoding outcome `d`: a decoding error
/// becomes an image-processing error with its message, an image with more
/// pixels than the limit is refused, and any other image is taken as it is.
pub open spec fn finishes_image(d: Result<(u32, u32, Seq<u8>), Seq<char>>, r: Result<
    ImageInput,
    ForgeError,
>) -> bool {
    match d {
        Err(msg) => r matches Err(ForgeError::ImageProcessingFailed(m)) && m@ == msg,
        Ok((w, h, px)) => if w * h > MAX_IMAGE_PIXELS {
            r is Err && is_image_error(r->Err_0, too_many_pixels_message((w * h) as nat))
        } else {
            r matches Ok(img) && img.width == w && img.height == h && img.rgba_data@ == px
        },
    }
}

/// Turn the outcome of decoding an image into image input: decoding errors
/// become image-processing errors, with the failed stage named, and images
/// with more pixels than the limit are refused.
pub fn finish_decoded_image(decoded: Result<(u32, u32, Vec<u8>), DecodeFailure>) -> (r: Result<
    ImageInput,
    ForgeError,
>)
    ensures
        finishes_image(decoded_view(decoded), r),
{
    proof {
        reveal_strlit("Failed to inspect image: ");
        reveal_strlit("Failed to decode image: ");
    }
    match decoded {
        Err(DecodeFailure::Inspect(m)) => Err(
            ForgeError::ImageProcessingFailed(String::from_str("Failed to inspect image: ").concat(m.as_str())),
        ),
        Err(DecodeFailure::Decode(m)) => Err(
            ForgeError::ImageProcessingFailed(String::from_str("Failed to decode image: ").concat(m.as_str())),
        ),
        Ok((width, height, rgba)) => {
            assert(width * height <= u32::MAX * u32::MAX) by (nonlinear_arith);
            let pixels: u64 = (width as u64) * (height as u64);
            if pixels > MAX_IMAGE_PIXELS {
                let msg = String::from_str("Image contains ");
                let msg = msg.concat(u64_to_decimal(pixels).as_str());
                let msg = msg.concat(" pixels; the limit is 32000000");
                return Err(ForgeError::ImageProcessingFailed(msg));
            }
            Ok(ImageInput::new(width, height, rgba))
        },
    }
}

/// No outcome of decoding becomes the error for an encoded image of
/// unacceptable size: decoding failures and oversized images carry other
/// messages.
proof fn lemma_decode_errors_are_not_size_errors(
    d: Result<(u32, u32, Seq<u8>), Seq<char>>,
    r: Result<ImageInput, ForgeError>,
)
    requires
        finishes_image(d, r),
        d matches Err(m) ==> m.len() > 0 && m[0] == 'F',
    ensures
        !(r matches Err(e) && is_image_error(e, encoded_size_message())),
{
    reveal_strlit("Encoded image size must be between 1 byte and 64 MiB");
    reveal_strlit("Image contains ");
    if r matches Err(e) && is_image_error(e, encoded_size_message()) {
        match d {
            Err(m) => {
                assert(m[0] == encoded_size_message()[0]);
            },
            Ok((w, h, px)) => {
                let msg = too_many_pixels_message((w * h) as nat);
                assert(msg[0] == 'I');
                assert(msg[0] == encoded_size_message()[0]);
            },
        }
    }
}

/// Decode an encoded (JPEG/PNG) image for a vision request: the encoded
/// size is checked, the image decoded within the dimension and allocation
/// limits, and its pixel count checked. Whatever the decoder made of the
/// bytes, the result is what `finish_decoded_image` makes of that outcome.
pub fn decode_vision_image(image_data: &[u8]) -> (r: Result<ImageInput, ForgeError>)
    ensures
        (r matches Err(e) && is_image_error(e, encoded_size_message())) <==> (image_data@.len()
            == 0 || image_data@.len() > MAX_ENCODED_IMAGE_BYTES),
        0 < image_data@.len() <= MAX_ENCODED_IMAGE_BYTES ==> exists|
            d: Result<(u32, u32, Vec<u8>), DecodeFailure>,
        |
            {
                &&& image_decoding(
                    image_data@,
                    MAX_IMAGE_DIMENSION,
                    MAX_DECODER_ALLOCATION_BYTES,
                    decoded_view(d),
                )
                &&& within_decode_limits(decoded_view(d), MAX_IMAGE_DIMENSION)
                &&& #[trigger] finishes_image(decoded_view(d), r)
            },
        r matches Ok(img) ==> {
            &&& img.rgba_data@.len() == 4 * img.width * img.height
            &&& img.width <= MAX_IMAGE_DIMENSION
            &&& img.height <= MAX_IMAGE_DIMENSION
            &&& img.width * img.height <= MAX_IMAGE_PIXELS
        },
{
    proof {
        reveal_strlit("Encoded image size must be between 1 byte and 64 MiB");
    }
    if image_data.len() == 0 || image_data.len() > MAX_ENCODED_IMAGE_BYTES {
        return Err(ForgeError::ImageProcessingFailed(
            String::from_str("Encoded image size must be between 1 byte and 64 MiB"),
        ));
    }
    let decoded = decode_rgba8(image_data, MAX_IMAGE_DIMENSION, MAX_DECODER_ALLOCATION_BYTES);
    let ghost d = decoded;
    let r = finish_decoded_image(decoded);
    proof {
        reveal_strlit("Failed to inspect image: ");
        reveal_strlit("Failed to decode image: ");
        match d {
            Err(DecodeFailure::Inspect(m)) => {
                assert(failure_message(DecodeFailure::Inspect(m))[0] == 'F');
            },
            Err(DecodeFailure::Decode(m)) => {
                assert(failure_message(DecodeFailure::Decode(m))[0] == 'F');
            },
            Ok(_) => {},
        }
        lemma_decode_errors_are_not_size_errors(decoded_view(d), r);
    }
    assert(finishes_image(decoded_view(d), r));
    r
}

} // verus!
