//! Inference context: parameters, context shifting, and the bookkeeping of
//! tokenization and token-piece buffers around the native calls.

use vstd::prelude::*;
use vstd::string::*;
use crate::error::ForgeError;
use crate::text::{i64_to_decimal, signed_decimal};

verus! {

/// Parameters for creating a context.
#[derive(Debug, Clone, Copy)]
pub struct ContextParams {
    /// Context size (number of tokens that can be processed)
    pub n_ctx: u32,
    /// Batch size for prompt processing
    pub n_batch: u32,
    /// Micro-batch size for continuous batching
    pub n_ubatch: u32,
    /// Number of threads for generation
    pub n_threads: i32,
    /// Number of threads for batch processing
    pub n_threads_batch: i32,
    /// Enable Flash Attention when supported by the backend
    pub flash_attention: bool,
}

impl Default for ContextParams {
    fn default() -> (r: Self)
        ensures
            r.n_ctx == 2048,
            r.n_batch == 128,
            r.n_ubatch == 128,
            r.n_threads == 2,
            r.n_threads_batch == 2,
            r.flash_attention,
    {
        ContextParams {
            n_ctx: 2048,
            n_batch: 128,
            n_ubatch: 128,
            n_threads: 2,
            n_threads_batch: 2,
            flash_attention: true,
        }
    }
}

/// A context shift: the positions `[keep, keep + discard)` of sequence 0
/// are removed and the positions `[keep + discard, end)` move back by
/// `discard`.
#[derive(PartialEq, Eq, Structural, Debug, Clone, Copy)]
pub struct ShiftPlan {
    /// Number of leading positions preserved
    pub keep: i32,
    /// Number of positions removed after the preserved ones
    pub discard: i32,
    /// Current end of the sequence (the old `n_past`)
    pub end: i32,
}

/// The fill level from which the context is shifted: 90% of its size.
pub open spec fn shift_threshold(n_ctx: int) -> int {
    n_ctx * 9 / 10
}

/// The shift to perform when `n_past` tokens are in a context of size
/// `n_ctx`, `n_keep` of them preserved; `None` when no shift is needed yet
/// or none is possible. A shift is possible when it discards something:
/// at least two tokens must follow the preserved prefix, since half of
/// them is discarded.
pub open spec fn shift_plan(n_past: int, n_ctx: int, n_keep: int, can_shift: bool) -> Option<
    ShiftPlan,
> {
    if n_past < shift_threshold(n_ctx) || !can_shift || n_past - n_keep < 2 {
        None
    } else {
        Some(
            ShiftPlan {
                keep: n_keep as i32,
                discard: ((n_past - n_keep) / 2) as i32,
                end: n_past as i32,
            },
        )
    }
}

/// Decide whether and how to shift the context window.
///
/// When the context is at least 90% full and the memory supports shifting,
/// half of the tokens after the first `n_keep` are discarded; the first
/// `n_keep` tokens (the system prompt) are always kept.
pub fn plan_context_shift(n_past: i32, n_ctx: i32, n_keep: i32, can_shift: bool) -> (r: Option<
    ShiftPlan,
>)
    requires
        0 <= n_ctx,
    ensures
        r == shift_plan(n_past as int, n_ctx as int, n_keep as int, can_shift),
        r matches Some(p) ==> p.spec_new_n_past() < n_past,
{
    // The threshold and the difference are computed in `i64`, where no
    // value of the `i32` arguments can overflow them.
    let threshold: i64 = (n_ctx as i64) * 9 / 10;
    if (n_past as i64) < threshold {
        return None;
    }
    if !can_shift {
        return None;
    }
    let n_left: i64 = (n_past as i64) - (n_keep as i64);
    if n_left < 2 {
        return None;
    }
    let n_discard = (n_left / 2) as i32;
    Some(ShiftPlan { keep: n_keep, discard: n_discard, end: n_past })
}

impl ShiftPlan {
    /// The number of tokens in the context once the shift is done.
    pub open spec fn spec_new_n_past(self) -> int {
        self.end - self.discard
    }

    /// The number of tokens in the context once the shift is done.
    pub fn new_n_past(&self) -> (r: i32)
        requires
            i32::MIN <= self.end - self.discard <= i32::MAX,
        ensures
            r == self.spec_new_n_past(),
    {
        self.end - self.discard
    }
}

/// Law: a planned shift preserves the first `n_keep` tokens, removes about
/// half of the rest (never all of them), and never moves `n_past` below
/// `n_keep`.
pub proof fn lemma_shift_preserves_prefix(n_past: int, n_ctx: int, n_keep: int, can_shift: bool)
    requires
        shift_plan(n_past, n_ctx, n_keep, can_shift) is Some,
        i32::MIN <= n_keep <= n_past <= i32::MAX,
    ensures
        ({
            let p = shift_plan(n_past, n_ctx, n_keep, can_shift)->0;
            &&& p.keep == n_keep
            &&& 0 <= p.discard
            &&& 2 * p.discard <= n_past - n_keep
            &&& p.spec_new_n_past() > n_keep
            &&& p.spec_new_n_past() <= n_past
            &&& p.end == n_past
        }),
{
}

/// How a request for room in the context stands.
#[derive(PartialEq, Eq, Structural, Debug, Clone, Copy)]
pub enum RoomCheck {
    /// The request can never fit: it is at least as large as the context.
    TooLarge,
    /// The request fits after the current tokens.
    Fits,
    /// The request fits only after shifting the context.
    NeedsShift,
}

/// How a request for `required` more tokens stands with `n_past` tokens in
/// a context of size `n_ctx` (the last slot is never filled).
pub open spec fn room_check(n_past: int, required: int, n_ctx: int) -> RoomCheck {
    if required >= n_ctx {
        RoomCheck::TooLarge
    } else if n_past + required >= n_ctx {
        RoomCheck::NeedsShift
    } else {
        RoomCheck::Fits
    }
}

/// Check whether `required` more tokens fit.
pub fn check_room(n_past: i32, required: i32, n_ctx: i32) -> (r: RoomCheck)
    ensures
        r == room_check(n_past as int, required as int, n_ctx as int),
{
    if required >= n_ctx {
        RoomCheck::TooLarge
    } else if (n_past as i64) + (required as i64) >= (n_ctx as i64) {
        RoomCheck::NeedsShift
    } else {
        RoomCheck::Fits
    }
}

/// The next step towards room for more tokens.
#[derive(PartialEq, Eq, Structural, Debug, Clone, Copy)]
pub enum RoomStep {
    /// The tokens fit now.
    Ready,
    /// Perform this shift first, then ask again.
    Shift(ShiftPlan),
    /// The request is at least as large as the context.
    TooLarge,
    /// The context is full and cannot be shifted.
    Full,
}

/// The position bookkeeping of a context: how many tokens it holds, its
/// size, how many leading tokens a shift preserves, and whether its memory
/// supports shifting.
#[derive(Debug, Clone, Copy)]
pub struct ContextWindow {
    n_past: i32,
    n_ctx: i32,
    n_keep: i32,
    can_shift: bool,
}

impl ContextWindow {
    /// Changing the token count to a value within `i32` keeps the other
    /// fields.
    pub proof fn lemma_with_n_past(self, n_past: int)
        requires
            i32::MIN <= n_past <= i32::MAX,
        ensures
            self.spec_with_n_past(n_past).spec_n_past() == n_past,
            self.spec_with_n_past(n_past).spec_n_ctx() == self.spec_n_ctx(),
            self.spec_with_n_past(n_past).spec_n_keep() == self.spec_n_keep(),
            self.spec_with_n_past(n_past).spec_can_shift() == self.spec_can_shift(),
    {
    }

    /// Tokens currently in the context.
    pub closed spec fn spec_n_past(&self) -> int {
        self.n_past as int
    }

    /// Size of the context.
    pub closed spec fn spec_n_ctx(&self) -> int {
        self.n_ctx as int
    }

    /// Leading tokens that a shift preserves.
    pub closed spec fn spec_n_keep(&self) -> int {
        self.n_keep as int
    }

    /// Whether the context memory supports shifting.
    pub closed spec fn spec_can_shift(&self) -> bool {
        self.can_shift
    }

    /// Well-formedness: the context size is not negative; the token count
    /// and the preserved prefix may be any `i32`.
    pub open spec fn wf(&self) -> bool {
        &&& 0 <= self.spec_n_ctx() <= i32::MAX
        &&& i32::MIN <= self.spec_n_past() <= i32::MAX
        &&& i32::MIN <= self.spec_n_keep() <= i32::MAX
    }

    /// The next step towards room for `required` more tokens.
    pub open spec fn spec_room_step(&self, required: int) -> RoomStep {
        match room_check(self.spec_n_past(), required, self.spec_n_ctx()) {
            RoomCheck::TooLarge => RoomStep::TooLarge,
            RoomCheck::Fits => RoomStep::Ready,
            RoomCheck::NeedsShift => match shift_plan(
                self.spec_n_past(),
                self.spec_n_ctx(),
                self.spec_n_keep(),
                self.spec_can_shift(),
            ) {
                Some(p) => RoomStep::Shift(p),
                None => RoomStep::Full,
            },
        }
    }

    /// The same window holding `n_past` tokens.
    pub closed spec fn spec_with_n_past(self, n_past: int) -> Self {
        ContextWindow { n_past: n_past as i32, ..self }
    }

    /// A window with the given state.
    pub fn new(n_past: i32, n_ctx: i32, n_keep: i32, can_shift: bool) -> (r: Self)
        requires
            0 <= n_ctx,
        ensures
            r.wf(),
            r.spec_n_past() == n_past,
            r.spec_n_ctx() == n_ctx,
            r.spec_n_keep() == n_keep,
            r.spec_can_shift() == can_shift,
    {
        ContextWindow { n_past, n_ctx, n_keep, can_shift }
    }

    /// Tokens currently in the context.
    pub fn n_past(&self) -> (r: i32)
        ensures
            r == self.spec_n_past(),
    {
        self.n_past
    }

    /// Size of the context.
    pub fn n_ctx(&self) -> (r: i32)
        ensures
            r == self.spec_n_ctx(),
    {
        self.n_ctx
    }

    /// The next step towards room for `required` more tokens.
    pub fn room_step(&self, required: i32) -> (r: RoomStep)
        requires
            self.wf(),
            required >= 0,
        ensures
            r == self.spec_room_step(required as int),
    {
        match check_room(self.n_past, required, self.n_ctx) {
            RoomCheck::TooLarge => RoomStep::TooLarge,
            RoomCheck::Fits => RoomStep::Ready,
            RoomCheck::NeedsShift => match plan_context_shift(
                self.n_past,
                self.n_ctx,
                self.n_keep,
                self.can_shift,
            ) {
                Some(p) => RoomStep::Shift(p),
                None => RoomStep::Full,
            },
        }
    }

    /// Record that a planned shift was carried out.
    pub fn apply_shift(&mut self, plan: ShiftPlan)
        requires
            old(self).wf(),
            shift_plan(
                old(self).spec_n_past(),
                old(self).spec_n_ctx(),
                old(self).spec_n_keep(),
                old(self).spec_can_shift(),
            ) == Some(plan),
        ensures
            final(self).wf(),
            *final(self) == old(self).spec_with_n_past(plan.spec_new_n_past()),
            final(self).spec_n_past() == plan.spec_new_n_past(),
            final(self).spec_n_ctx() == old(self).spec_n_ctx(),
            final(self).spec_n_keep() == old(self).spec_n_keep(),
            final(self).spec_can_shift() == old(self).spec_can_shift(),
    {
        self.n_past = plan.new_n_past();
    }

    /// Record that the context was cleared.
    pub fn clear(&mut self)
        requires
            old(self).wf(),
        ensures
            final(self).wf(),
            *final(self) == old(self).spec_with_n_past(0),
            final(self).spec_n_past() == 0,
            final(self).spec_n_ctx() == old(self).spec_n_ctx(),
            final(self).spec_n_keep() == old(self).spec_n_keep(),
            final(self).spec_can_shift() == old(self).spec_can_shift(),
    {
        self.n_past = 0;
    }

    /// Record that `count` tokens for which there was room were decoded.
    pub fn advance(&mut self, count: i32)
        requires
            old(self).wf(),
            count >= 0,
            old(self).spec_room_step(count as int) == RoomStep::Ready,
        ensures
            final(self).wf(),
            *final(self) == old(self).spec_with_n_past(old(self).spec_n_past() + count),
            final(self).spec_n_past() == old(self).spec_n_past() + count,
            final(self).spec_n_past() < final(self).spec_n_ctx(),
            final(self).spec_n_ctx() == old(self).spec_n_ctx(),
            final(self).spec_n_keep() == old(self).spec_n_keep(),
            final(self).spec_can_shift() == old(self).spec_can_shift(),
    {
        self.n_past = self.n_past + count;
    }
}

/// Law: the context never overflows: once the next step towards room for
/// `required` tokens is `Ready`, decoding them leaves the context below its
/// size.
pub proof fn lemma_ready_fits(n_past: int, required: int, n_ctx: int)
    requires
        room_check(n_past, required, n_ctx) == RoomCheck::Fits,
    ensures
        n_past + required < n_ctx,
        required < n_ctx,
{
}

/// Law: making room ends. Every planned shift strictly lowers the number
/// of tokens that follow the preserved prefix and leaves at least one of
/// them, so the repeated shifts of one request for room (each planned only
/// while at least two tokens follow the prefix) stop after at most
/// `n_past - n_keep` of them, with room or with a full context.
pub proof fn lemma_shift_progress(n_past: int, n_ctx: int, n_keep: int, can_shift: bool)
    requires
        i32::MIN <= n_past <= i32::MAX,
        i32::MIN <= n_keep <= i32::MAX,
        shift_plan(n_past, n_ctx, n_keep, can_shift) is Some,
    ensures
        ({
            let rest = shift_plan(n_past, n_ctx, n_keep, can_shift)->0.spec_new_n_past() - n_keep;
            0 < rest < n_past - n_keep
        }),
{
}

/// The message for a request that can never fit in the context.
pub open spec fn too_large_message(required: int, n_ctx: int) -> Seq<char> {
    "input batch of "@ + signed_decimal(required) + " tokens does not fit context size "@
        + signed_decimal(n_ctx)
}

/// The message for a full context that cannot be shifted.
pub open spec fn context_full_message(n_past: int) -> Seq<char> {
    "context is full at "@ + signed_decimal(n_past) + " tokens and cannot be shifted"@
}

/// Whether `e` is an invalid-parameter error carrying message `msg`.
pub open spec fn is_invalid_parameter(e: ForgeError, msg: Seq<char>) -> bool {
    e matches ForgeError::InvalidParameter(m) && m@ == msg
}

/// The error for a request that can never fit in the context.
pub fn too_large_error(required: i32, n_ctx: i32) -> (e: ForgeError)
    ensures
        is_invalid_parameter(e, too_large_message(required as int, n_ctx as int)),
{
    let msg = String::from_str("input batch of ");
    let msg = msg.concat(i64_to_decimal(required as i64).as_str());
    let msg = msg.concat(" tokens does not fit context size ");
    let msg = msg.concat(i64_to_decimal(n_ctx as i64).as_str());
    ForgeError::InvalidParameter(msg)
}

/// The error for a full context that cannot be shifted.
pub fn context_full_error(n_past: i32) -> (e: ForgeError)
    ensures
        is_invalid_parameter(e, context_full_message(n_past as int)),
{
    let msg = String::from_str("context is full at ");
    let msg = msg.concat(i64_to_decimal(n_past as i64).as_str());
    let msg = msg.concat(" tokens and cannot be shifted");
    ForgeError::InvalidParameter(msg)
}

/// Number of extra token slots allocated beyond one token per byte.
pub const TOKENIZE_SLACK: i32 = 64;

/// Size of the token buffer handed to the tokenizer for a text of
/// `text_len` bytes: one token per byte plus some slack.
pub fn tokenize_capacity(text_len: usize) -> (r: i32)
    requires
        text_len + TOKENIZE_SLACK <= i32::MAX,
    ensures
        r == text_len + TOKENIZE_SLACK,
{
    text_len as i32 + TOKENIZE_SLACK
}

/// The message for a tokenizer failure with result code `n_tokens`.
pub open spec fn tokenize_failure_message(n_tokens: int) -> Seq<char> {
    "llama_tokenize returned "@ + signed_decimal(n_tokens)
}

/// Interpret the tokenizer's result: a negative count is a failure,
/// otherwise the buffer is cut down to the tokens written.
pub fn finish_tokenize(tokens: Vec<i32>, n_tokens: i32) -> (r: Result<Vec<i32>, ForgeError>)
    ensures
        n_tokens < 0 ==> (r matches Err(ForgeError::TokenizationFailed(m)) && m@
            == tokenize_failure_message(n_tokens as int)),
        n_tokens >= 0 ==> (r matches Ok(v) && v@ == if n_tokens < tokens@.len() {
            tokens@.take(n_tokens as int)
        } else {
            tokens@
        }),
{
    if n_tokens < 0 {
        let msg = String::from_str("llama_tokenize returned ");
        let msg = msg.concat(i64_to_decimal(n_tokens as i64).as_str());
        return Err(ForgeError::TokenizationFailed(msg));
    }
    let mut tokens = tokens;
    tokens.truncate(n_tokens as usize);
    Ok(tokens)
}

/// Size of the first buffer offered for a token's text.
pub const PIECE_BUFFER_LEN: usize = 128;

/// The buffer size to retry with after the native call reported `len`
/// (a negative length is the size it needs).
pub fn piece_retry_len(len: i32) -> (r: Option<usize>)
    requires
        len != i32::MIN,
    ensures
        len < 0 ==> r == Some((-len) as usize),
        len >= 0 ==> r is None,
{
    if len < 0 {
        Some((-len) as usize)
    } else {
        None
    }
}

/// Cut a piece buffer down to the `len` bytes written (a negative length
/// leaves it as it is).
pub fn finish_piece(buf: Vec<u8>, len: i32) -> (r: Vec<u8>)
    ensures
        r@ == if 0 <= len < buf@.len() {
            buf@.take(len as int)
        } else {
            buf@
        },
{
    let mut buf = buf;
    if len >= 0 {
        buf.truncate(len as usize);
    }
    buf
}

} // verus!
