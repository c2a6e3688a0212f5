//! The generation loop of the engine as a state machine.
//!
//! A generation call alternates decisions with native work: tokenizing the
//! prompt, decoding batches, sampling tokens, shifting the context. The
//! machine below takes the decisions. The caller performs each action it
//! returns on the native context and reports the outcome as the next
//! event, until the machine is done.

use vstd::prelude::*;
use vstd::string::*;
use crate::context::{
    context_full_error, context_full_message, is_invalid_parameter, lemma_shift_preserves_prefix,
    too_large_error,
    too_large_message, ContextWindow, RoomStep, ShiftPlan,
};
use crate::error::ForgeError;
use crate::utf8_stream::{
    chunks_from, decode_text, lemma_lossy_append, lossy_text, string_views, Utf8StreamDecoder,
    REPLACEMENT,
};

verus! {

/// The message for a first-turn-only request made on a later turn.
pub open spec fn bos_not_first_message() -> Seq<char> {
    "add_bos can only be true for the first conversation turn; call reset() first"@
}

/// How a generation call starts.
#[derive(PartialEq, Eq, Structural, Debug, Clone, Copy)]
pub enum GenerationKind {
    /// A single-turn generation: the prompt is tokenized with special
    /// tokens and evaluated in a freshly cleared context.
    Fresh,
    /// A conversation turn appended to the context; special tokens are
    /// added when `add_bos`, which is allowed on the first turn only.
    Turn { add_bos: bool },
    /// Generation right after multimodal input was evaluated.
    AfterMedia,
}

/// What a pending room request is for.
#[derive(PartialEq, Eq, Structural, Debug, Clone, Copy)]
pub enum RoomFor {
    /// The next chunk of prompt tokens
    PromptChunk,
    /// The next sampled token
    Sample,
}

/// What the machine waits for.
#[derive(PartialEq, Eq, Structural, Debug, Clone, Copy)]
pub enum Phase {
    /// Waiting for `Start`
    Begin,
    /// Waiting for `Tokenized`
    AwaitTokens,
    /// Waiting for `Cleared`
    AwaitClear,
    /// Waiting for `Shifted` after asking for `plan`, on the way to room
    /// for `required` tokens
    AwaitShift { plan: ShiftPlan, required: i32, then: RoomFor },
    /// Waiting for `Decoded` of the prompt tokens up to `end`
    AwaitPromptDecode { end: usize },
    /// Waiting for `Sampled`
    AwaitSample,
    /// Waiting for `Decoded` of a sampled token
    AwaitTokenDecode,
    /// Waiting for `Decoded` of the end-of-generation token
    AwaitEogDecode { ignore_failure: bool },
    /// Waiting for `Accepted` of the end-of-generation token
    AwaitAccept,
    /// Waiting for `Accepted` of the text tokens evaluated with the media
    AwaitPromptAccept,
    /// The call is over
    Finished,
}

/// The outcome of the native work the machine asked for.
pub enum GenEvent {
    /// The call begins.
    Start,
    /// The prompt was tokenized (or tokenization failed).
    Tokenized(Result<Vec<i32>, ForgeError>),
    /// The context memory was cleared and the sampler reset.
    Cleared,
    /// A shift was attempted; `true` when the tokens were removed (and the
    /// rest moved back).
    Shifted(bool),
    /// A batch was decoded with this result code (0 for success).
    Decoded(i32),
    /// A token was sampled; `is_eog` tells whether it ends generation and
    /// `piece` holds its text bytes (not used for an end-of-generation
    /// token).
    Sampled { token: i32, is_eog: bool, piece: Vec<u8> },
    /// A token was accepted into the sampler.
    Accepted,
}

/// The native work to do next.
pub enum GenAction {
    /// Tokenize the prompt, adding special tokens when `add_special`.
    Tokenize { add_special: bool },
    /// Clear the context memory and reset the sampler.
    ClearContext,
    /// Remove the positions `[keep, keep + discard)` of sequence 0; when
    /// that succeeds, move `[keep + discard, end)` back by `discard`.
    Shift(ShiftPlan),
    /// Decode the prompt tokens `start..end` at positions from `pos` in
    /// sequence 0, requesting logits for the last one; after a successful
    /// decode, accept those tokens into the sampler.
    DecodePrompt { start: usize, end: usize, pos: i32 },
    /// Sample the next token.
    Sample,
    /// Accept `token` into the sampler, then decode it alone at `pos` in
    /// sequence 0, requesting logits when `logits`.
    DecodeToken { token: i32, pos: i32, logits: bool },
    /// Accept `token` into the sampler.
    Accept { token: i32 },
    /// Accept the prompt tokens `start..end` (already in the context) into
    /// the sampler, in order.
    AcceptPrompt { start: usize, end: usize },
    /// The call is over, with the generated text or an error.
    Done(Result<String, ForgeError>),
}

/// The decision a step takes, abstracted from the strings it carries.
#[derive(PartialEq, Eq, Structural, Debug, Clone, Copy)]
pub enum Decision {
    Tokenize { add_special: bool },
    ClearContext,
    Shift(ShiftPlan),
    DecodePrompt { start: usize, end: usize, pos: i32 },
    Sample,
    DecodeToken { token: i32, pos: i32, logits: bool },
    Accept { token: i32 },
    AcceptPrompt { start: usize, end: usize },
    /// Done with the generated text
    Finish,
    /// Done: cancelled
    Cancelled,
    /// Done: the request can never fit in the context
    TooLarge { required: i32, n_ctx: i32 },
    /// Done: the context is full and cannot be shifted
    ContextFull { n_past: i32 },
    /// Done: special tokens requested after the first turn
    BosNotFirst,
    /// Done: decoding failed with this code
    DecodeFailed(i32),
    /// Done: tokenization failed (its error is passed on)
    TokenizeFailed,
}

/// The fixed settings of a generation call.
#[derive(PartialEq, Eq, Structural, Debug, Clone, Copy)]
pub struct GenConfig {
    pub kind: GenerationKind,
    pub n_batch: u32,
    pub max_tokens: i32,
}

/// The state of a generation call.
#[verifier::ext_equal]
pub struct GenModel {
    pub phase: Phase,
    pub window: ContextWindow,
    pub prompt: Seq<i32>,
    pub next_chunk: int,
    pub sampled: int,
    pub last_eog: Option<i32>,
    pub pending: Seq<u8>,
    pub output: Seq<char>,
}

/// Size of the next chunk of prompt tokens.
pub open spec fn chunk_len(cfg: GenConfig, m: GenModel) -> int {
    if m.prompt.len() - m.next_chunk < cfg.n_batch {
        m.prompt.len() - m.next_chunk
    } else {
        cfg.n_batch as int
    }
}

/// The state once the call is over.
pub open spec fn finished(m: GenModel) -> GenModel {
    GenModel { phase: Phase::Finished, ..m }
}

/// The state after the stream of text was closed: an incomplete sequence
/// still buffered becomes a replacement character.
pub open spec fn closed(m: GenModel) -> GenModel {
    GenModel {
        phase: Phase::Finished,
        pending: seq![],
        output: m.output + lossy_text(m.pending),
        ..m
    }
}

/// The chunks emitted when the stream of text is closed.
pub open spec fn close_chunks(m: GenModel) -> Seq<Seq<char>> {
    if m.pending.len() == 0 {
        seq![]
    } else {
        seq![seq![REPLACEMENT]]
    }
}

/// The next step towards room for `required` tokens, followed by the work
/// they are for.
pub open spec fn spec_room(cfg: GenConfig, m: GenModel, required: int, then: RoomFor) -> (
    GenModel,
    Decision,
) {
    match m.window.spec_room_step(required) {
        RoomStep::Ready => match then {
            RoomFor::PromptChunk => (
                GenModel {
                    phase: Phase::AwaitPromptDecode { end: (m.next_chunk + required) as usize },
                    ..m
                },
                Decision::DecodePrompt {
                    start: m.next_chunk as usize,
                    end: (m.next_chunk + required) as usize,
                    pos: m.window.spec_n_past() as i32,
                },
            ),
            RoomFor::Sample => (
                GenModel { phase: Phase::AwaitSample, sampled: m.sampled + 1, ..m },
                Decision::Sample,
            ),
        },
        RoomStep::Shift(p) => (
            GenModel {
                phase: Phase::AwaitShift { plan: p, required: required as i32, then },
                ..m
            },
            Decision::Shift(p),
        ),
        RoomStep::TooLarge => (
            finished(m),
            Decision::TooLarge {
                required: required as i32,
                n_ctx: m.window.spec_n_ctx() as i32,
            },
        ),
        RoomStep::Full => (
            finished(m),
            Decision::ContextFull { n_past: m.window.spec_n_past() as i32 },
        ),
    }
}

/// What follows once earlier work is done: the next prompt chunk, else
/// the next token while fewer than `max_tokens` were sampled, else the
/// end; cancellation is honoured before each chunk and each token.
pub open spec fn spec_proceed(cfg: GenConfig, m: GenModel, cancelled: bool) -> (
    GenModel,
    Decision,
) {
    if m.next_chunk < m.prompt.len() {
        if cancelled {
            (finished(m), Decision::Cancelled)
        } else {
            spec_room(cfg, m, chunk_len(cfg, m), RoomFor::PromptChunk)
        }
    } else if m.sampled >= cfg.max_tokens {
        (closed(m), Decision::Finish)
    } else if cancelled {
        (finished(m), Decision::Cancelled)
    } else {
        spec_room(cfg, m, 1, RoomFor::Sample)
    }
}

/// Chunks emitted by `spec_proceed` (only the end of the stream emits).
pub open spec fn proceed_chunks(cfg: GenConfig, m: GenModel, cancelled: bool) -> Seq<
    Seq<char>,
> {
    if m.next_chunk >= m.prompt.len() && m.sampled >= cfg.max_tokens {
        close_chunks(m)
    } else {
        seq![]
    }
}

/// Whether the machine in state `m` expects `ev`.
pub open spec fn expects(m: GenModel, ev: GenEvent) -> bool {
    match m.phase {
        Phase::Begin => ev is Start,
        Phase::AwaitTokens => ev is Tokenized,
        Phase::AwaitClear => ev is Cleared,
        Phase::AwaitShift { .. } => ev is Shifted,
        Phase::AwaitPromptDecode { .. } => ev is Decoded,
        Phase::AwaitSample => ev is Sampled,
        Phase::AwaitTokenDecode => ev is Decoded,
        Phase::AwaitEogDecode { .. } => ev is Decoded,
        Phase::AwaitAccept => ev is Accepted,
        Phase::AwaitPromptAccept => ev is Accepted,
        Phase::Finished => false,
    }
}

/// One step of the machine: the next state, the decision taken, and the
/// chunks of text emitted.
#[verifier::opaque]
pub open spec fn spec_step(cfg: GenConfig, m: GenModel, ev: GenEvent, cancelled: bool) -> (
    GenModel,
    Decision,
    Seq<Seq<char>>,
) {
    match m.phase {
        Phase::Begin => match cfg.kind {
            GenerationKind::Fresh => (
                GenModel { phase: Phase::AwaitTokens, ..m },
                Decision::Tokenize { add_special: true },
                seq![],
            ),
            GenerationKind::Turn { add_bos } => if add_bos && m.window.spec_n_past() != 0 {
                (finished(m), Decision::BosNotFirst, seq![])
            } else {
                (
                    GenModel { phase: Phase::AwaitTokens, ..m },
                    Decision::Tokenize { add_special: add_bos },
                    seq![],
                )
            },
            GenerationKind::AfterMedia => if m.prompt.len() > 0 {
                (
                    GenModel { phase: Phase::AwaitPromptAccept, ..m },
                    Decision::AcceptPrompt { start: 0, end: m.prompt.len() as usize },
                    seq![],
                )
            } else {
                let (m2, d) = spec_proceed(cfg, m, cancelled);
                (m2, d, proceed_chunks(cfg, m, cancelled))
            },
        },
        Phase::AwaitTokens => match ev {
            GenEvent::Tokenized(Ok(tokens)) => {
                let m1 = GenModel { prompt: tokens@, next_chunk: 0, ..m };
                if cfg.kind == GenerationKind::Fresh {
                    (GenModel { phase: Phase::AwaitClear, ..m1 }, Decision::ClearContext, seq![])
                } else {
                    let (m2, d) = spec_proceed(cfg, m1, cancelled);
                    (m2, d, proceed_chunks(cfg, m1, cancelled))
                }
            },
            _ => (finished(m), Decision::TokenizeFailed, seq![]),
        },
        Phase::AwaitClear => {
            let m1 = GenModel { window: m.window.spec_with_n_past(0), ..m };
            let (m2, d) = spec_proceed(cfg, m1, cancelled);
            (m2, d, proceed_chunks(cfg, m1, cancelled))
        },
        Phase::AwaitShift { plan, required, then } => match ev {
            GenEvent::Shifted(true) => {
                let m1 = GenModel {
                    window: m.window.spec_with_n_past(plan.spec_new_n_past()),
                    ..m
                };
                let (m2, d) = spec_room(cfg, m1, required as int, then);
                (m2, d, seq![])
            },
            _ => (
                finished(m),
                Decision::ContextFull { n_past: m.window.spec_n_past() as i32 },
                seq![],
            ),
        },
        Phase::AwaitPromptDecode { end } => match ev {
            GenEvent::Decoded(code) => if code != 0 {
                (finished(m), Decision::DecodeFailed(code), seq![])
            } else {
                let m1 = GenModel {
                    window: m.window.spec_with_n_past(
                        m.window.spec_n_past() + (end - m.next_chunk),
                    ),
                    next_chunk: end as int,
                    ..m
                };
                let (m2, d) = spec_proceed(cfg, m1, cancelled);
                (m2, d, proceed_chunks(cfg, m1, cancelled))
            },
            _ => (finished(m), Decision::Finish, seq![]),
        },
        Phase::AwaitSample => match ev {
            GenEvent::Sampled { token, is_eog, piece } => if is_eog {
                let m1 = GenModel { last_eog: Some(token), ..m };
                let pos = m.window.spec_n_past() as i32;
                match cfg.kind {
                    GenerationKind::AfterMedia => (
                        GenModel { phase: Phase::AwaitAccept, ..m1 },
                        Decision::Accept { token },
                        seq![],
                    ),
                    GenerationKind::Fresh => (
                        GenModel { phase: Phase::AwaitEogDecode { ignore_failure: true }, ..m1 },
                        Decision::DecodeToken { token, pos, logits: false },
                        seq![],
                    ),
                    GenerationKind::Turn { .. } => (
                        GenModel { phase: Phase::AwaitEogDecode { ignore_failure: false }, ..m1 },
                        Decision::DecodeToken { token, pos, logits: false },
                        seq![],
                    ),
                }
            } else {
                let all = m.pending + piece@;
                (
                    GenModel {
                        phase: Phase::AwaitTokenDecode,
                        pending: decode_text(all).1,
                        output: m.output + decode_text(all).0,
                        ..m
                    },
                    Decision::DecodeToken { token, pos: m.window.spec_n_past() as i32, logits: true },
                    chunks_from(all, seq![]),
                )
            },
            _ => (finished(m), Decision::Finish, seq![]),
        },
        Phase::AwaitTokenDecode => match ev {
            GenEvent::Decoded(code) => if code != 0 {
                (finished(m), Decision::DecodeFailed(code), seq![])
            } else {
                let m1 = GenModel {
                    window: m.window.spec_with_n_past(m.window.spec_n_past() + 1),
                    ..m
                };
                let (m2, d) = spec_proceed(cfg, m1, cancelled);
                (m2, d, proceed_chunks(cfg, m1, cancelled))
            },
            _ => (finished(m), Decision::Finish, seq![]),
        },
        Phase::AwaitEogDecode { ignore_failure } => match ev {
            GenEvent::Decoded(code) => if code != 0 && !ignore_failure {
                (finished(m), Decision::DecodeFailed(code), seq![])
            } else {
                let m1 = GenModel {
                    window: m.window.spec_with_n_past(m.window.spec_n_past() + 1),
                    ..m
                };
                (closed(m1), Decision::Finish, close_chunks(m1))
            },
            _ => (finished(m), Decision::Finish, seq![]),
        },
        Phase::AwaitAccept => (closed(m), Decision::Finish, close_chunks(m)),
        Phase::AwaitPromptAccept => {
            let (m2, d) = spec_proceed(cfg, m, cancelled);
            (m2, d, proceed_chunks(cfg, m, cancelled))
        },
        Phase::Finished => (m, Decision::Finish, seq![]),
    }
}

/// Whether `a` carries out decision `d`; `output` is the text generated
/// and `ev` the event that led to the decision.
pub open spec fn carries_out(a: GenAction, d: Decision, output: Seq<char>, ev: GenEvent) -> bool {
    match d {
        Decision::Tokenize { add_special } => a == (GenAction::Tokenize { add_special }),
        Decision::ClearContext => a is ClearContext,
        Decision::Shift(p) => a == GenAction::Shift(p),
        Decision::DecodePrompt { start, end, pos } => a == (GenAction::DecodePrompt {
            start,
            end,
            pos,
        }),
        Decision::Sample => a is Sample,
        Decision::DecodeToken { token, pos, logits } => a == (GenAction::DecodeToken {
            token,
            pos,
            logits,
        }),
        Decision::Accept { token } => a == (GenAction::Accept { token }),
        Decision::AcceptPrompt { start, end } => a == (GenAction::AcceptPrompt { start, end }),
        Decision::Finish => a matches GenAction::Done(Ok(s)) && s@ == output,
        Decision::Cancelled => a matches GenAction::Done(Err(ForgeError::Cancelled)),
        Decision::TooLarge { required, n_ctx } => a matches GenAction::Done(Err(e))
            && is_invalid_parameter(e, too_large_message(required as int, n_ctx as int)),
        Decision::ContextFull { n_past } => a matches GenAction::Done(Err(e)) && is_invalid_parameter(
            e,
            context_full_message(n_past as int),
        ),
        Decision::BosNotFirst => a matches GenAction::Done(Err(e)) && is_invalid_parameter(
            e,
            bos_not_first_message(),
        ),
        Decision::DecodeFailed(code) => a matches GenAction::Done(Err(ForgeError::DecodeFailed(c)))
            && c == code,
        Decision::TokenizeFailed => ev matches GenEvent::Tokenized(Err(e0)) && a matches GenAction::Done(
            Err(e),
        ) && e == e0,
    }
}


/// The bounds the machine keeps, whatever it waits for.
pub open spec fn base_wf(cfg: GenConfig, m: GenModel) -> bool {
    &&& m.window.wf()
    &&& (m.next_chunk < m.prompt.len() ==> cfg.n_batch > 0)
    &&& m.prompt.len() <= i32::MAX
    &&& 0 <= m.next_chunk <= m.prompt.len()
    &&& (cfg.kind == GenerationKind::AfterMedia ==> m.next_chunk == m.prompt.len())
    &&& 0 <= m.sampled
    &&& (m.sampled == 0 || m.sampled <= cfg.max_tokens)
}

/// The invariant of the machine: bounds, and for each phase the facts the
/// awaited work relies on.
pub open spec fn model_wf(cfg: GenConfig, m: GenModel) -> bool {
    &&& base_wf(cfg, m)
    &&& match m.phase {
        Phase::AwaitShift { plan, required, then } => {
            &&& m.window.spec_room_step(required as int) == RoomStep::Shift(plan)
            &&& required >= 0
            &&& (then == RoomFor::PromptChunk ==> m.next_chunk < m.prompt.len() && required
                == chunk_len(cfg, m))
            &&& (then == RoomFor::Sample ==> required == 1 && m.sampled < cfg.max_tokens)
        },
        Phase::AwaitPromptDecode { end } => {
            &&& m.next_chunk < end <= m.prompt.len()
            &&& end - m.next_chunk == chunk_len(cfg, m)
            &&& m.window.spec_room_step(end - m.next_chunk) == RoomStep::Ready
        },
        Phase::AwaitSample => m.window.spec_room_step(1) == RoomStep::Ready && m.sampled >= 1,
        Phase::AwaitTokenDecode => m.window.spec_room_step(1) == RoomStep::Ready,
        Phase::AwaitEogDecode { .. } => m.window.spec_room_step(1) == RoomStep::Ready,
        Phase::AwaitTokens => cfg.kind != GenerationKind::AfterMedia,
        Phase::AwaitClear => cfg.kind == GenerationKind::Fresh,
        _ => true,
    }
}

/// A generation call in progress.
pub struct Generation {
    cfg: GenConfig,
    window: ContextWindow,
    prompt: Vec<i32>,
    next_chunk: usize,
    sampled: i32,
    last_eog: Option<i32>,
    phase: Phase,
    decoder: Utf8StreamDecoder,
    output: String,
}

impl Generation {
    /// The fixed settings of the call.
    pub closed spec fn config(&self) -> GenConfig {
        self.cfg
    }

    /// The state of the call.
    pub closed spec fn model(&self) -> GenModel {
        GenModel {
            phase: self.phase,
            window: self.window,
            prompt: self.prompt@,
            next_chunk: self.next_chunk as int,
            sampled: self.sampled as int,
            last_eog: self.last_eog,
            pending: self.decoder.pending(),
            output: self.output@,
        }
    }

    /// Well-formedness.
    pub open spec fn wf(&self) -> bool {
        model_wf(self.config(), self.model())
    }

    /// Start a generation call of the given kind on a context holding
    /// `n_past` tokens.
    pub fn new(
        kind: GenerationKind,
        n_ctx: i32,
        n_batch: u32,
        max_tokens: i32,
        n_past: i32,
        n_keep: i32,
        can_shift: bool,
    ) -> (r: Self)
        requires
            0 <= n_ctx,
        ensures
            r.wf(),
            r.config() == (GenConfig { kind, n_batch, max_tokens }),
            r.model().phase == Phase::Begin,
            r.model().window.spec_n_past() == n_past,
            r.model().window.spec_n_ctx() == n_ctx,
            r.model().window.spec_n_keep() == n_keep,
            r.model().window.spec_can_shift() == can_shift,
            r.model().prompt.len() == 0,
            r.model().next_chunk == 0,
            r.model().sampled == 0,
            r.model().last_eog is None,
            r.model().pending.len() == 0,
            r.model().output.len() == 0,
    {
        Generation {
            cfg: GenConfig { kind, n_batch, max_tokens },
            window: ContextWindow::new(n_past, n_ctx, n_keep, can_shift),
            prompt: Vec::new(),
            next_chunk: 0,
            sampled: 0,
            last_eog: None,
            phase: Phase::Begin,
            decoder: Utf8StreamDecoder::default(),
            output: String::new(),
        }
    }

    /// Start generating right after multimodal input was evaluated into a
    /// context that now holds `n_past` tokens; `evaluated` are the text
    /// tokens evaluated with the media, in order, which the sampler is to
    /// accept before the first token is sampled.
    pub fn new_after_media(
        n_ctx: i32,
        n_batch: u32,
        max_tokens: i32,
        n_past: i32,
        n_keep: i32,
        can_shift: bool,
        evaluated: Vec<i32>,
    ) -> (r: Self)
        requires
            0 <= n_ctx,
            evaluated@.len() <= i32::MAX,
        ensures
            r.wf(),
            r.config() == (GenConfig { kind: GenerationKind::AfterMedia, n_batch, max_tokens }),
            r.model().phase == Phase::Begin,
            r.model().window.spec_n_past() == n_past,
            r.model().window.spec_n_ctx() == n_ctx,
            r.model().window.spec_n_keep() == n_keep,
            r.model().window.spec_can_shift() == can_shift,
            r.model().prompt == evaluated@,
            r.model().next_chunk == evaluated@.len(),
            r.model().sampled == 0,
            r.model().last_eog is None,
            r.model().pending.len() == 0,
            r.model().output.len() == 0,
    {
        let next_chunk = evaluated.len();
        Generation {
            cfg: GenConfig { kind: GenerationKind::AfterMedia, n_batch, max_tokens },
            window: ContextWindow::new(n_past, n_ctx, n_keep, can_shift),
            prompt: evaluated,
            next_chunk,
            sampled: 0,
            last_eog: None,
            phase: Phase::Begin,
            decoder: Utf8StreamDecoder::default(),
            output: String::new(),
        }
    }

    /// Tokens in the context.
    pub fn n_past(&self) -> (r: i32)
        ensures
            r == self.model().window.spec_n_past(),
    {
        self.window.n_past()
    }

    /// The last end-of-generation token sampled, if any.
    pub fn last_eog(&self) -> (r: Option<i32>)
        ensures
            r == self.model().last_eog,
    {
        self.last_eog
    }

    /// Whether the call is over.
    pub fn is_finished(&self) -> (r: bool)
        ensures
            r == (self.model().phase == Phase::Finished),
    {
        self.phase == Phase::Finished
    }

    /// The prompt tokens, once tokenized.
    pub fn prompt(&self) -> (r: &Vec<i32>)
        ensures
            r@ == self.model().prompt,
    {
        &self.prompt
    }

    /// Whether `event` is the outcome the machine waits for now.
    pub fn awaits(&self, event: &GenEvent) -> (r: bool)
        ensures
            r == expects(self.model(), *event),
    {
        match self.phase {
            Phase::Begin => matches!(event, GenEvent::Start),
            Phase::AwaitTokens => matches!(event, GenEvent::Tokenized(_)),
            Phase::AwaitClear => matches!(event, GenEvent::Cleared),
            Phase::AwaitShift { .. } => matches!(event, GenEvent::Shifted(_)),
            Phase::AwaitPromptDecode { .. } => matches!(event, GenEvent::Decoded(_)),
            Phase::AwaitSample => matches!(event, GenEvent::Sampled { .. }),
            Phase::AwaitTokenDecode => matches!(event, GenEvent::Decoded(_)),
            Phase::AwaitEogDecode { .. } => matches!(event, GenEvent::Decoded(_)),
            Phase::AwaitAccept => matches!(event, GenEvent::Accepted),
            Phase::AwaitPromptAccept => matches!(event, GenEvent::Accepted),
            Phase::Finished => false,
        }
    }

    /// Close the text stream and end the call with the generated text.
    fn close(&mut self) -> (r: (GenAction, Vec<String>))
        requires
            base_wf(old(self).config(), old(self).model()),
        ensures
            final(self).config() == old(self).config(),
            final(self).model() == closed(old(self).model()),
            carries_out(r.0, Decision::Finish, final(self).model().output, GenEvent::Start),
            string_views(r.1@) == close_chunks(old(self).model()),
            model_wf(final(self).config(), final(self).model()),
            r.0 is Done,
    {
        let chunks = self.decoder.finish(&mut self.output);
        self.phase = Phase::Finished;
        proof {
            if old(self).model().pending.len() == 0 {
                assert(string_views(chunks@) =~= Seq::<Seq<char>>::empty());
            }
        }
        (GenAction::Done(Ok(self.output.clone())), chunks)
    }

    /// End the call with an error.
    fn fail(&mut self, e: ForgeError) -> (r: GenAction)
        requires
            base_wf(old(self).config(), old(self).model()),
        ensures
            final(self).config() == old(self).config(),
            final(self).model() == finished(old(self).model()),
            r == GenAction::Done(Err(e)),
            model_wf(final(self).config(), final(self).model()),
    {
        self.phase = Phase::Finished;
        GenAction::Done(Err(e))
    }

    /// Take the next step towards room for `required` tokens.
    fn room(&mut self, required: i32, then: RoomFor) -> (r: GenAction)
        requires
            base_wf(old(self).config(), old(self).model()),
            required >= 0,
            then == RoomFor::PromptChunk ==> old(self).model().next_chunk < old(
                self,
            ).model().prompt.len() && required == chunk_len(old(self).config(), old(self).model()),
            then == RoomFor::Sample ==> required == 1 && old(self).model().sampled < old(
                self,
            ).config().max_tokens,
        ensures
            final(self).config() == old(self).config(),
            final(self).model() == spec_room(
                old(self).config(),
                old(self).model(),
                required as int,
                then,
            ).0,
            carries_out(
                r,
                spec_room(old(self).config(), old(self).model(), required as int, then).1,
                final(self).model().output,
                GenEvent::Start,
            ),
            model_wf(final(self).config(), final(self).model()),
            r matches GenAction::DecodePrompt { start, end, pos } ==> {
                &&& final(self).model().phase == (Phase::AwaitPromptDecode { end })
                &&& start == final(self).model().next_chunk
                &&& pos == final(self).model().window.spec_n_past()
            },
            r is Sample ==> final(self).model().phase == Phase::AwaitSample,
            !(r is DecodeToken),
    {
        match self.window.room_step(required) {
            RoomStep::Ready => match then {
                RoomFor::PromptChunk => {
                    let plen = self.prompt.len();
                    assert(self.next_chunk + required <= plen);
                    let end = self.next_chunk + required as usize;
                    self.phase = Phase::AwaitPromptDecode { end };
                    GenAction::DecodePrompt {
                        start: self.next_chunk,
                        end,
                        pos: self.window.n_past(),
                    }
                },
                RoomFor::Sample => {
                    self.sampled = self.sampled + 1;
                    self.phase = Phase::AwaitSample;
                    GenAction::Sample
                },
            },
            RoomStep::Shift(p) => {
                self.phase = Phase::AwaitShift { plan: p, required, then };
                GenAction::Shift(p)
            },
            RoomStep::TooLarge => {
                let e = too_large_error(required, self.window.n_ctx());
                self.fail(e)
            },
            RoomStep::Full => {
                let e = context_full_error(self.window.n_past());
                self.fail(e)
            },
        }
    }

    /// Continue with the next prompt chunk, the next token, or the end.
    fn proceed(&mut self, cancelled: bool) -> (r: (GenAction, Vec<String>))
        requires
            base_wf(old(self).config(), old(self).model()),
        ensures
            final(self).config() == old(self).config(),
            final(self).model() == spec_proceed(old(self).config(), old(self).model(), cancelled).0,
            carries_out(
                r.0,
                spec_proceed(old(self).config(), old(self).model(), cancelled).1,
                final(self).model().output,
                GenEvent::Start,
            ),
            string_views(r.1@) == proceed_chunks(old(self).config(), old(self).model(), cancelled),
            model_wf(final(self).config(), final(self).model()),
            r.0 matches GenAction::DecodePrompt { start, end, pos } ==> {
                &&& final(self).model().phase == (Phase::AwaitPromptDecode { end })
                &&& start == final(self).model().next_chunk
                &&& pos == final(self).model().window.spec_n_past()
            },
            r.0 is Sample ==> final(self).model().phase == Phase::AwaitSample,
            !(r.0 is DecodeToken),
    {
        if self.next_chunk < self.prompt.len() {
            if cancelled {
                let a = self.fail(ForgeError::Cancelled);
                (a, Vec::new())
            } else {
                let remaining = self.prompt.len() - self.next_chunk;
                let required: usize = if remaining < self.cfg.n_batch as usize {
                    remaining
                } else {
                    self.cfg.n_batch as usize
                };
                let a = self.room(required as i32, RoomFor::PromptChunk);
                (a, Vec::new())
            }
        } else if self.sampled >= self.cfg.max_tokens {
            self.close()
        } else if cancelled {
            let a = self.fail(ForgeError::Cancelled);
            (a, Vec::new())
        } else {
            let a = self.room(1, RoomFor::Sample);
            (a, Vec::new())
        }
    }

    /// Take the step that follows `event`; `cancelled` is the current
    /// state of the caller's cancellation flag. Returns the next action and
    /// the chunks of generated text that became available.
    pub fn step(&mut self, event: GenEvent, cancelled: bool) -> (r: (GenAction, Vec<String>))
        requires
            old(self).wf(),
            expects(old(self).model(), event),
            event matches GenEvent::Tokenized(Ok(t)) ==> t@.len() <= i32::MAX && old(
                self,
            ).config().n_batch > 0,
        ensures
            final(self).wf(),
            final(self).config() == old(self).config(),
            final(self).model() == spec_step(
                old(self).config(),
                old(self).model(),
                event,
                cancelled,
            ).0,
            carries_out(
                r.0,
                spec_step(old(self).config(), old(self).model(), event, cancelled).1,
                final(self).model().output,
                event,
            ),
            string_views(r.1@) == spec_step(
                old(self).config(),
                old(self).model(),
                event,
                cancelled,
            ).2,
            // every decode asked for fits in the context, at the next position;
            // the prompt goes in order, in chunks of at most `n_batch` tokens
            r.0 matches GenAction::DecodePrompt { start, end, pos } ==> {
                &&& pos + (end - start) < final(self).model().window.spec_n_ctx()
                &&& pos == final(self).model().window.spec_n_past()
                &&& start == final(self).model().next_chunk
                &&& start < end <= final(self).model().prompt.len()
                &&& end - start <= final(self).config().n_batch
            },
            r.0 matches GenAction::DecodeToken { pos, .. } ==> {
                &&& pos + 1 < final(self).model().window.spec_n_ctx()
                &&& pos == final(self).model().window.spec_n_past()
            },
            // at most `max_tokens` tokens are sampled
            r.0 is Sample ==> 1 <= final(self).model().sampled <= final(self).config().max_tokens,
            // a decoded end-of-generation token takes its position
            old(self).model().phase is AwaitEogDecode && event is Decoded && (event->Decoded_0 == 0
                || old(self).model().phase->ignore_failure) ==> final(self).model().window.spec_n_past()
                == old(self).model().window.spec_n_past() + 1,
    {
        let ghost m0 = self.model();
        let ghost cfg0 = self.config();
        let ghost ev0 = event;
        let r = self.step_inner(event, cancelled);
        proof {
            lemma_phase_facts(self.config(), self.model());
            if m0.phase is AwaitEogDecode && ev0 is Decoded {
                let code = ev0->Decoded_0;
                if code == 0 || m0.phase->ignore_failure {
                    lemma_eog_token_counts(cfg0, m0, code, cancelled);
                }
            }
        }
        r
    }

    #[verifier::spinoff_prover]
    #[verifier::rlimit(60)]
    fn step_inner(&mut self, event: GenEvent, cancelled: bool) -> (r: (GenAction, Vec<String>))
        requires
            old(self).wf(),
            expects(old(self).model(), event),
            event matches GenEvent::Tokenized(Ok(t)) ==> t@.len() <= i32::MAX && old(
                self,
            ).config().n_batch > 0,
        ensures
            final(self).wf(),
            final(self).config() == old(self).config(),
            final(self).model() == spec_step(
                old(self).config(),
                old(self).model(),
                event,
                cancelled,
            ).0,
            carries_out(
                r.0,
                spec_step(old(self).config(), old(self).model(), event, cancelled).1,
                final(self).model().output,
                event,
            ),
            string_views(r.1@) == spec_step(
                old(self).config(),
                old(self).model(),
                event,
                cancelled,
            ).2,
            r.0 matches GenAction::DecodePrompt { start, end, pos } ==> {
                &&& final(self).model().phase == (Phase::AwaitPromptDecode { end })
                &&& start == final(self).model().next_chunk
                &&& pos == final(self).model().window.spec_n_past()
            },
            r.0 matches GenAction::DecodeToken { pos, .. } ==> {
                &&& (final(self).model().phase == Phase::AwaitTokenDecode
                    || final(self).model().phase is AwaitEogDecode)
                &&& pos == final(self).model().window.spec_n_past()
            },
            r.0 is Sample ==> final(self).model().phase == Phase::AwaitSample,
    {
        reveal(spec_step);
        match self.phase {
            Phase::Begin => match self.cfg.kind {
                GenerationKind::Fresh => {
                    self.phase = Phase::AwaitTokens;
                    (GenAction::Tokenize { add_special: true }, Vec::new())
                },
                GenerationKind::Turn { add_bos } => {
                    if add_bos && self.window.n_past() != 0 {
                        let msg = String::from_str(
                            "add_bos can only be true for the first conversation turn; call reset() first",
                        );
                        let a = self.fail(ForgeError::InvalidParameter(msg));
                        (a, Vec::new())
                    } else {
                        self.phase = Phase::AwaitTokens;
                        (GenAction::Tokenize { add_special: add_bos }, Vec::new())
                    }
                },
                GenerationKind::AfterMedia => {
                    if self.prompt.len() > 0 {
                        self.phase = Phase::AwaitPromptAccept;
                        (GenAction::AcceptPrompt { start: 0, end: self.prompt.len() }, Vec::new())
                    } else {
                        self.proceed(cancelled)
                    }
                },
            },
            Phase::AwaitTokens => match event {
                GenEvent::Tokenized(Ok(tokens)) => {
                    self.prompt = tokens;
                    self.next_chunk = 0;
                    if self.cfg.kind == GenerationKind::Fresh {
                        self.phase = Phase::AwaitClear;
                        (GenAction::ClearContext, Vec::new())
                    } else {
                        self.proceed(cancelled)
                    }
                },
                GenEvent::Tokenized(Err(e)) => {
                    let a = self.fail(e);
                    (a, Vec::new())
                },
                _ => (GenAction::Sample, Vec::new()),
            },
            Phase::AwaitClear => {
                self.window.clear();
                self.proceed(cancelled)
            },
            Phase::AwaitShift { plan, required, then } => match event {
                GenEvent::Shifted(removed) => {
                    if removed {
                        self.window.apply_shift(plan);
                        let a = self.room(required, then);
                        (a, Vec::new())
                    } else {
                        let e = context_full_error(self.window.n_past());
                        let a = self.fail(e);
                        (a, Vec::new())
                    }
                },
                _ => (GenAction::Sample, Vec::new()),
            },
            Phase::AwaitPromptDecode { end } => match event {
                GenEvent::Decoded(code) => {
                    if code != 0 {
                        let a = self.fail(ForgeError::DecodeFailed(code));
                        (a, Vec::new())
                    } else {
                        let count = (end - self.next_chunk) as i32;
                        self.window.advance(count);
                        self.next_chunk = end;
                        self.proceed(cancelled)
                    }
                },
                _ => (GenAction::Sample, Vec::new()),
            },
            Phase::AwaitSample => match event {
                GenEvent::Sampled { token, is_eog, piece } => {
                    let pos = self.window.n_past();
                    if is_eog {
                        self.last_eog = Some(token);
                        match self.cfg.kind {
                            GenerationKind::AfterMedia => {
                                self.phase = Phase::AwaitAccept;
                                (GenAction::Accept { token }, Vec::new())
                            },
                            GenerationKind::Fresh => {
                                self.phase = Phase::AwaitEogDecode { ignore_failure: true };
                                (GenAction::DecodeToken { token, pos, logits: false }, Vec::new())
                            },
                            GenerationKind::Turn { .. } => {
                                self.phase = Phase::AwaitEogDecode { ignore_failure: false };
                                (GenAction::DecodeToken { token, pos, logits: false }, Vec::new())
                            },
                        }
                    } else {
                        let chunks = self.decoder.push(piece.as_slice(), &mut self.output);
                        self.phase = Phase::AwaitTokenDecode;
                        (GenAction::DecodeToken { token, pos, logits: true }, chunks)
                    }
                },
                _ => (GenAction::Sample, Vec::new()),
            },
            Phase::AwaitTokenDecode => match event {
                GenEvent::Decoded(code) => {
                    if code != 0 {
                        let a = self.fail(ForgeError::DecodeFailed(code));
                        (a, Vec::new())
                    } else {
                        self.window.advance(1);
                        self.proceed(cancelled)
                    }
                },
                _ => (GenAction::Sample, Vec::new()),
            },
            Phase::AwaitEogDecode { ignore_failure } => match event {
                GenEvent::Decoded(code) => {
                    if code != 0 && !ignore_failure {
                        let a = self.fail(ForgeError::DecodeFailed(code));
                        (a, Vec::new())
                    } else {
                        self.window.advance(1);
                        self.close()
                    }
                },
                _ => (GenAction::Sample, Vec::new()),
            },
            Phase::AwaitAccept => self.close(),
            Phase::AwaitPromptAccept => self.proceed(cancelled),
            Phase::Finished => (GenAction::Sample, Vec::new()),
        }
    }
}


/// The conversation state an engine keeps between generation calls.
#[derive(Debug, Clone, Copy)]
pub struct EngineState {
    /// Current position in the context (tokens processed so far)
    n_past: i32,
    /// Number of tokens to keep when shifting context (system prompt size)
    n_keep: i32,
    /// Last end-of-generation token sampled
    last_eog_token: Option<i32>,
}

impl EngineState {
    /// Tokens processed so far.
    pub closed spec fn spec_n_past(&self) -> int {
        self.n_past as int
    }

    /// Tokens preserved by context shifts.
    pub closed spec fn spec_n_keep(&self) -> int {
        self.n_keep as int
    }

    /// Last end-of-generation token sampled.
    pub closed spec fn spec_last_eog(&self) -> Option<i32> {
        self.last_eog_token
    }

    /// A fresh conversation.
    pub fn new() -> (r: Self)
        ensures
            r.spec_n_past() == 0,
            r.spec_n_keep() == 0,
            r.spec_last_eog() is None,
    {
        EngineState { n_past: 0, n_keep: 0, last_eog_token: None }
    }

    /// Whether this is the first turn (nothing processed yet).
    pub fn is_first_turn(&self) -> (r: bool)
        ensures
            r == (self.spec_n_past() == 0),
    {
        self.n_past == 0
    }

    /// Tokens processed so far.
    pub fn n_past(&self) -> (r: i32)
        ensures
            r == self.spec_n_past(),
    {
        self.n_past
    }

    /// Set the number of tokens to preserve when the context is shifted.
    pub fn set_n_keep(&mut self, n_keep: i32)
        ensures
            final(self).spec_n_keep() == n_keep,
            final(self).spec_n_past() == old(self).spec_n_past(),
            final(self).spec_last_eog() == old(self).spec_last_eog(),
    {
        self.n_keep = n_keep;
    }

    /// The number of tokens preserved when the context is shifted.
    pub fn n_keep(&self) -> (r: i32)
        ensures
            r == self.spec_n_keep(),
    {
        self.n_keep
    }

    /// The last end-of-generation token sampled.
    pub fn last_eog_token(&self) -> (r: Option<i32>)
        ensures
            r == self.spec_last_eog(),
    {
        self.last_eog_token
    }

    /// Forget the conversation (the context is cleared alongside).
    pub fn reset(&mut self)
        ensures
            final(self).spec_n_past() == 0,
            final(self).spec_last_eog() is None,
            final(self).spec_n_keep() == old(self).spec_n_keep(),
    {
        self.n_past = 0;
        self.last_eog_token = None;
    }

    /// The context was cleared and multimodal input evaluated into it,
    /// leaving `n_past` tokens.
    pub fn restart_at(&mut self, n_past: i32)
        ensures
            final(self).spec_n_past() == n_past,
            final(self).spec_n_keep() == old(self).spec_n_keep(),
            final(self).spec_last_eog() == old(self).spec_last_eog(),
    {
        self.n_past = n_past;
    }

    /// Start a generation call of the given kind on this conversation.
    pub fn begin(
        &self,
        kind: GenerationKind,
        n_ctx: i32,
        n_batch: u32,
        max_tokens: i32,
        can_shift: bool,
    ) -> (r: Generation)
        requires
            0 <= n_ctx,
        ensures
            r.wf(),
            r.config() == (GenConfig { kind, n_batch, max_tokens }),
            r.model().phase == Phase::Begin,
            r.model().window.spec_n_past() == self.spec_n_past(),
            r.model().window.spec_n_ctx() == n_ctx,
            r.model().window.spec_n_keep() == self.spec_n_keep(),
            r.model().window.spec_can_shift() == can_shift,
            r.model().prompt.len() == 0,
            r.model().next_chunk == 0,
            r.model().sampled == 0,
            r.model().last_eog is None,
            r.model().pending.len() == 0,
            r.model().output.len() == 0,
    {
        Generation::new(kind, n_ctx, n_batch, max_tokens, self.n_past, self.n_keep, can_shift)
    }

    /// Start generating on this conversation right after multimodal input
    /// was evaluated; `evaluated` are the text tokens evaluated with it.
    /// They are accepted into the sampler before the first token is
    /// sampled, because the sampler must see every token evaluated into the
    /// context (its repeat penalties then cover the prompt, as they do for a
    /// conversation turn). Pass no tokens to sample with the sampler's
    /// history left as the media evaluation found it.
    pub fn begin_after_media(
        &self,
        n_ctx: i32,
        n_batch: u32,
        max_tokens: i32,
        can_shift: bool,
        evaluated: Vec<i32>,
    ) -> (r: Generation)
        requires
            0 <= n_ctx,
            evaluated@.len() <= i32::MAX,
        ensures
            r.wf(),
            r.config() == (GenConfig { kind: GenerationKind::AfterMedia, n_batch, max_tokens }),
            r.model().phase == Phase::Begin,
            r.model().window.spec_n_past() == self.spec_n_past(),
            r.model().window.spec_n_ctx() == n_ctx,
            r.model().window.spec_n_keep() == self.spec_n_keep(),
            r.model().window.spec_can_shift() == can_shift,
            r.model().prompt == evaluated@,
            r.model().next_chunk == evaluated@.len(),
            r.model().sampled == 0,
            r.model().last_eog is None,
            r.model().pending.len() == 0,
            r.model().output.len() == 0,
    {
        Generation::new_after_media(
            n_ctx,
            n_batch,
            max_tokens,
            self.n_past,
            self.n_keep,
            can_shift,
            evaluated,
        )
    }

    /// Take over the positions and end-of-generation token left by a
    /// generation call (also one that ended in an error).
    pub fn absorb(&mut self, g: &Generation)
        ensures
            final(self).spec_n_past() == g.model().window.spec_n_past(),
            final(self).spec_n_keep() == old(self).spec_n_keep(),
            final(self).spec_last_eog() == match g.model().last_eog {
                Some(t) => Some(t),
                None => old(self).spec_last_eog(),
            },
    {
        self.n_past = g.n_past();
        if let Some(t) = g.last_eog() {
            self.last_eog_token = Some(t);
        }
    }
}


/// What the invariant guarantees about the work awaited.
pub proof fn lemma_phase_facts(cfg: GenConfig, m: GenModel)
    requires
        model_wf(cfg, m),
    ensures
        m.phase matches Phase::AwaitPromptDecode { end } ==> m.window.spec_n_past() + (end
            - m.next_chunk) < m.window.spec_n_ctx() && m.next_chunk < end <= m.prompt.len() && end
            - m.next_chunk <= cfg.n_batch,
        (m.phase == Phase::AwaitTokenDecode || m.phase is AwaitEogDecode || m.phase
            == Phase::AwaitSample) ==> m.window.spec_n_past() + 1 < m.window.spec_n_ctx(),
        m.phase == Phase::AwaitSample ==> 1 <= m.sampled <= cfg.max_tokens,
{
}

/// Law: a later conversation turn that asks for special tokens is refused
/// before any native work is done.
pub proof fn lemma_bos_only_on_first_turn(cfg: GenConfig, m: GenModel, cancelled: bool)
    requires
        m.phase == Phase::Begin,
        cfg.kind == (GenerationKind::Turn { add_bos: true }),
        m.window.spec_n_past() != 0,
    ensures
        spec_step(cfg, m, GenEvent::Start, cancelled).1 == Decision::BosNotFirst,
        spec_step(cfg, m, GenEvent::Start, cancelled).0.phase == Phase::Finished,
{
    reveal(spec_step);
}

/// Law: once cancellation is requested, the machine asks for no further
/// prompt decoding and no further sampling (a shift already under way is
/// completed first).
pub proof fn lemma_cancel_stops_work(cfg: GenConfig, m: GenModel, ev: GenEvent)
    requires
        expects(m, ev),
        !(ev is Shifted),
    ensures
        !(spec_step(cfg, m, ev, true).1 is DecodePrompt),
        !(spec_step(cfg, m, ev, true).1 is Sample),
{
    reveal(spec_step);
}

/// Law: the generated text is the lossy UTF-8 decoding of the pieces of
/// the sampled tokens: each piece extends the text so that, whatever bytes
/// follow, the text so far plus the lossy decoding of the undecided bytes
/// and what follows is unchanged; closing the stream decodes the undecided
/// bytes lossily.
pub proof fn lemma_text_is_lossy_decoding(
    cfg: GenConfig,
    m: GenModel,
    token: i32,
    piece: Vec<u8>,
    rest: Seq<u8>,
    cancelled: bool,
)
    requires
        m.phase == Phase::AwaitSample,
    ensures
        ({
            let m2 = spec_step(
                cfg,
                m,
                GenEvent::Sampled { token, is_eog: false, piece },
                cancelled,
            ).0;
            m2.output + lossy_text(m2.pending + rest) == m.output + lossy_text(
                m.pending + piece@ + rest,
            )
        }),
        closed(m).output == m.output + lossy_text(m.pending),
{
    reveal(spec_step);
    let all = m.pending + piece@;
    lemma_lossy_append(all, rest);
    assert(m.output + decode_text(all).0 + lossy_text(decode_text(all).1 + rest) == m.output + (
    decode_text(all).0 + lossy_text(decode_text(all).1 + rest)));
}

/// Law: a conversation turn appends to the context. Only a fresh
/// generation clears it; otherwise the number of tokens in the context
/// never goes down, except by a shift the machine asked for, which leaves
/// it at the planned size; every successful decode of prompt tokens or of a
/// sampled token makes it grow.
pub proof fn lemma_turn_appends(cfg: GenConfig, m: GenModel, ev: GenEvent, cancelled: bool)
    requires
        model_wf(cfg, m),
        expects(m, ev),
    ensures
        cfg.kind != GenerationKind::Fresh ==> !(spec_step(cfg, m, ev, cancelled).1
            is ClearContext),
        m.phase != Phase::AwaitClear && !(m.phase is AwaitShift) ==> spec_step(
            cfg,
            m,
            ev,
            cancelled,
        ).0.window.spec_n_past() >= m.window.spec_n_past(),
        (m.phase is AwaitPromptDecode || m.phase == Phase::AwaitTokenDecode) && ev
            == GenEvent::Decoded(0) ==> spec_step(cfg, m, ev, cancelled).0.window.spec_n_past()
            > m.window.spec_n_past(),
        m.phase matches Phase::AwaitShift { plan, .. } ==> spec_step(
            cfg,
            m,
            ev,
            cancelled,
        ).0.window.spec_n_past() == (if ev == GenEvent::Shifted(true) {
            plan.spec_new_n_past()
        } else {
            m.window.spec_n_past()
        }),
{
    reveal(spec_step);
    lemma_phase_facts(cfg, m);
    let w = m.window;
    match m.phase {
        Phase::AwaitClear => {
            w.lemma_with_n_past(0);
        },
        Phase::AwaitShift { plan, required, then } => {
            lemma_shift_preserves_prefix(
                w.spec_n_past(),
                w.spec_n_ctx(),
                w.spec_n_keep(),
                w.spec_can_shift(),
            );
            w.lemma_with_n_past(plan.spec_new_n_past());
        },
        Phase::AwaitPromptDecode { end } => {
            w.lemma_with_n_past(w.spec_n_past() + (end - m.next_chunk));
        },
        Phase::AwaitTokenDecode => {
            w.lemma_with_n_past(w.spec_n_past() + 1);
        },
        Phase::AwaitEogDecode { .. } => {
            w.lemma_with_n_past(w.spec_n_past() + 1);
        },
        _ => {},
    }
}

/// Law: a reset conversation takes a first turn again. After
/// `EngineState::reset` the conversation holds no tokens, so a turn begun
/// on it with special tokens requested is tokenized with them rather than
/// refused.
pub proof fn lemma_reset_allows_first_turn(cfg: GenConfig, m: GenModel, cancelled: bool)
    requires
        m.phase == Phase::Begin,
        m.window.spec_n_past() == 0,
        cfg.kind == (GenerationKind::Turn { add_bos: true }),
    ensures
        spec_step(cfg, m, GenEvent::Start, cancelled).1 == (Decision::Tokenize {
            add_special: true,
        }),
        spec_step(cfg, m, GenEvent::Start, cancelled).0.phase == Phase::AwaitTokens,
{
    reveal(spec_step);
}

/// Law: every text token evaluated with the media reaches the sampler
/// before sampling starts: a call after multimodal input with evaluated
/// tokens first asks for all of them to be accepted, in order, and only
/// then goes on.
pub proof fn lemma_media_tokens_accepted_first(cfg: GenConfig, m: GenModel, cancelled: bool)
    requires
        m.phase == Phase::Begin,
        cfg.kind == GenerationKind::AfterMedia,
        m.prompt.len() > 0,
    ensures
        spec_step(cfg, m, GenEvent::Start, cancelled).1 == (Decision::AcceptPrompt {
            start: 0,
            end: m.prompt.len() as usize,
        }),
        spec_step(cfg, m, GenEvent::Start, cancelled).0.phase == Phase::AwaitPromptAccept,
{
    reveal(spec_step);
}

/// Law: the end-of-generation token counts. Once it is decoded into the
/// context (for a fresh generation whatever the decode reports, for a turn
/// when the decode succeeds), the call ends with the context one position
/// further, so that the next turn is decoded after it.
pub proof fn lemma_eog_token_counts(cfg: GenConfig, m: GenModel, code: i32, cancelled: bool)
    requires
        model_wf(cfg, m),
        m.phase matches Phase::AwaitEogDecode { ignore_failure } && (code == 0 || ignore_failure),
    ensures
        spec_step(cfg, m, GenEvent::Decoded(code), cancelled).0.window.spec_n_past()
            == m.window.spec_n_past() + 1,
        spec_step(cfg, m, GenEvent::Decoded(code), cancelled).1 == Decision::Finish,
        spec_step(cfg, m, GenEvent::Decoded(code), cancelled).0.phase == Phase::Finished,
{
    reveal(spec_step);
    lemma_phase_facts(cfg, m);
    m.window.lemma_with_n_past(m.window.spec_n_past() + 1);
}

} // verus!
