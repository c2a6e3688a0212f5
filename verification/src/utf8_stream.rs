//! Incremental UTF-8 decoding of generated text.
//!
//! Token pieces produced by the model are byte strings whose boundaries need
//! not fall on character boundaries. The decoder buffers an incomplete
//! trailing sequence until the next piece arrives, emits maximal runs of
//! valid text, and replaces each invalid sequence with U+FFFD exactly as
//! lossy UTF-8 decoding does.

use vstd::prelude::*;
use vstd::utf8::*;
use vstd::string::*;

verus! {

/// The replacement character emitted for invalid input.
pub const REPLACEMENT: char = '\u{FFFD}';

/// The outcome of examining the sequence that starts a byte string.
#[derive(PartialEq, Eq, Structural, Debug, Clone, Copy)]
pub enum Utf8Step {
    /// A well-formed scalar of the given length in bytes.
    Scalar(usize),
    /// An ill-formed sequence; decoding resumes after the given number of
    /// bytes (the maximal subpart of a well-formed sequence).
    Invalid(usize),
    /// A well-formed prefix of a scalar that the input ends inside of.
    Incomplete,
}

/// Whether `b` is a continuation byte (`10xxxxxx`).
pub open spec fn is_cont(b: u8) -> bool {
    0x80 <= b <= 0xbf
}

/// Whether `b1` may follow the leading byte `b0` of a three-byte sequence.
pub open spec fn second_ok_3(b0: u8, b1: u8) -> bool {
    ||| (b0 == 0xe0 && 0xa0 <= b1 <= 0xbf)
    ||| (0xe1 <= b0 <= 0xec && 0x80 <= b1 <= 0xbf)
    ||| (b0 == 0xed && 0x80 <= b1 <= 0x9f)
    ||| (0xee <= b0 <= 0xef && 0x80 <= b1 <= 0xbf)
}

/// Whether `b1` may follow the leading byte `b0` of a four-byte sequence.
pub open spec fn second_ok_4(b0: u8, b1: u8) -> bool {
    ||| (b0 == 0xf0 && 0x90 <= b1 <= 0xbf)
    ||| (0xf1 <= b0 <= 0xf3 && 0x80 <= b1 <= 0xbf)
    ||| (b0 == 0xf4 && 0x80 <= b1 <= 0x8f)
}

/// Classify the sequence at the start of a non-empty byte string
/// (the well-formed byte sequences of the Unicode standard, Table 3-7).
pub open spec fn first_step(b: Seq<u8>) -> Utf8Step
    recommends
        b.len() > 0,
{
    let b0 = b[0];
    if b0 < 0x80 {
        Utf8Step::Scalar(1)
    } else if 0xc2 <= b0 <= 0xdf {
        if b.len() < 2 {
            Utf8Step::Incomplete
        } else if !is_cont(b[1]) {
            Utf8Step::Invalid(1)
        } else {
            Utf8Step::Scalar(2)
        }
    } else if 0xe0 <= b0 <= 0xef {
        if b.len() < 2 {
            Utf8Step::Incomplete
        } else if !second_ok_3(b0, b[1]) {
            Utf8Step::Invalid(1)
        } else if b.len() < 3 {
            Utf8Step::Incomplete
        } else if !is_cont(b[2]) {
            Utf8Step::Invalid(2)
        } else {
            Utf8Step::Scalar(3)
        }
    } else if 0xf0 <= b0 <= 0xf4 {
        if b.len() < 2 {
            Utf8Step::Incomplete
        } else if !second_ok_4(b0, b[1]) {
            Utf8Step::Invalid(1)
        } else if b.len() < 3 {
            Utf8Step::Incomplete
        } else if !is_cont(b[2]) {
            Utf8Step::Invalid(2)
        } else if b.len() < 4 {
            Utf8Step::Incomplete
        } else if !is_cont(b[3]) {
            Utf8Step::Invalid(3)
        } else {
            Utf8Step::Scalar(4)
        }
    } else {
        Utf8Step::Invalid(1)
    }
}

/// Number of bytes a step consumes (zero for an incomplete sequence).
pub open spec fn step_len(s: Utf8Step) -> int {
    match s {
        Utf8Step::Scalar(k) => k as int,
        Utf8Step::Invalid(n) => n as int,
        Utf8Step::Incomplete => 0,
    }
}

/// A consumed step is between one byte and the whole input long.
pub proof fn lemma_step_len(b: Seq<u8>)
    requires
        b.len() > 0,
    ensures
        first_step(b) !is Incomplete ==> 1 <= step_len(first_step(b)) <= b.len(),
        first_step(b) is Incomplete ==> b.len() < 4,
{
}

/// Lossy decoding of `b` as far as it can be decided: the text decoded so
/// far and the unfinished tail (empty, or an incomplete sequence).
pub open spec fn decode_text(b: Seq<u8>) -> (Seq<char>, Seq<u8>)
    decreases b.len(),
{
    if b.len() == 0 {
        (seq![], seq![])
    } else {
        proof {
            lemma_step_len(b);
        }
        match first_step(b) {
            Utf8Step::Scalar(k) => {
                let (t, r) = decode_text(b.skip(k as int));
                (seq![decode_first_scalar(b) as char] + t, r)
            },
            Utf8Step::Invalid(n) => {
                let (t, r) = decode_text(b.skip(n as int));
                (seq![REPLACEMENT] + t, r)
            },
            Utf8Step::Incomplete => (seq![], b),
        }
    }
}

/// The one-element chunk list holding `run`, or no chunk when it is empty.
pub open spec fn flush(run: Seq<char>) -> Seq<Seq<char>> {
    if run.len() == 0 {
        seq![]
    } else {
        seq![run]
    }
}

/// The chunks in which text is emitted: maximal runs of well-formed text,
/// each replacement character on its own; `run` is text of the current run
/// decoded before `b`.
pub open spec fn chunks_from(b: Seq<u8>, run: Seq<char>) -> Seq<Seq<char>>
    decreases b.len(),
{
    if b.len() == 0 {
        flush(run)
    } else {
        proof {
            lemma_step_len(b);
        }
        match first_step(b) {
            Utf8Step::Scalar(k) => chunks_from(
                b.skip(k as int),
                run.push(decode_first_scalar(b) as char),
            ),
            Utf8Step::Invalid(n) => flush(run) + seq![seq![REPLACEMENT]] + chunks_from(
                b.skip(n as int),
                seq![],
            ),
            Utf8Step::Incomplete => flush(run),
        }
    }
}

/// Concatenation of a list of chunks.
pub open spec fn concat_chunks(c: Seq<Seq<char>>) -> Seq<char>
    decreases c.len(),
{
    if c.len() == 0 {
        seq![]
    } else {
        c[0] + concat_chunks(c.drop_first())
    }
}

/// Lossy decoding of a complete byte string: an unfinished tail becomes a
/// single replacement character.
pub open spec fn lossy_text(b: Seq<u8>) -> Seq<char> {
    decode_text(b).0 + if decode_text(b).1.len() == 0 {
        seq![]
    } else {
        seq![REPLACEMENT]
    }
}


proof fn lemma_codepoint_1(b0: u8)
    by (bit_vector)
    requires
        b0 < 0x80,
    ensures
        codepoint_width_1(b0) < 0x80,
{
}

proof fn lemma_codepoint_2(b0: u8, b1: u8)
    by (bit_vector)
    requires
        0xc2 <= b0 <= 0xdf,
        0x80 <= b1 <= 0xbf,
    ensures
        0x80 <= codepoint_width_2(b0, b1) <= 0x7ff,
{
}

proof fn lemma_codepoint_3(b0: u8, b1: u8, b2: u8)
    by (bit_vector)
    requires
        (b0 == 0xe0 && 0xa0 <= b1 <= 0xbf) || (0xe1 <= b0 <= 0xec && 0x80 <= b1 <= 0xbf) || (b0
            == 0xed && 0x80 <= b1 <= 0x9f) || (0xee <= b0 <= 0xef && 0x80 <= b1 <= 0xbf),
        0x80 <= b2 <= 0xbf,
    ensures
        0x800 <= codepoint_width_3(b0, b1, b2),
        !(0xd800 <= codepoint_width_3(b0, b1, b2) <= 0xdfff),
{
}

proof fn lemma_codepoint_4(b0: u8, b1: u8, b2: u8, b3: u8)
    by (bit_vector)
    requires
        (b0 == 0xf0 && 0x90 <= b1 <= 0xbf) || (0xf1 <= b0 <= 0xf3 && 0x80 <= b1 <= 0xbf) || (b0
            == 0xf4 && 0x80 <= b1 <= 0x8f),
        0x80 <= b2 <= 0xbf,
        0x80 <= b3 <= 0xbf,
    ensures
        0x10000 <= codepoint_width_4(b0, b1, b2, b3) <= 0x10ffff,
{
}

/// A scalar step is exactly a well-formed first scalar in the sense of
/// `vstd::utf8`, of the same length.
pub proof fn lemma_scalar_step_valid(b: Seq<u8>)
    requires
        b.len() > 0,
        first_step(b) is Scalar,
    ensures
        valid_first_scalar(b),
        length_of_first_scalar(b) == step_len(first_step(b)),
{
    let b0 = b[0];
    if b0 < 0x80 {
        lemma_codepoint_1(b0);
    } else if 0xc2 <= b0 <= 0xdf {
        lemma_codepoint_2(b0, b[1]);
    } else if 0xe0 <= b0 <= 0xef {
        lemma_codepoint_3(b0, b[1], b[2]);
    } else {
        lemma_codepoint_4(b0, b[1], b[2], b[3]);
    }
}

/// What the first step decides does not change when more bytes follow.
pub proof fn lemma_step_append(b: Seq<u8>, c: Seq<u8>)
    requires
        b.len() > 0,
        first_step(b) !is Incomplete,
    ensures
        first_step(b + c) == first_step(b),
        first_step(b) is Scalar ==> decode_first_scalar(b + c) == decode_first_scalar(b),
{
    let bc = b + c;
    assert(bc[0] == b[0]);
    if b.len() > 1 {
        assert(bc[1] == b[1]);
    }
    if b.len() > 2 {
        assert(bc[2] == b[2]);
    }
    if b.len() > 3 {
        assert(bc[3] == b[3]);
    }
}

/// Every step of `b` is a scalar: `b` is well-formed UTF-8.
pub open spec fn all_scalar(b: Seq<u8>) -> bool
    decreases b.len(),
{
    if b.len() == 0 {
        true
    } else {
        proof {
            lemma_step_len(b);
        }
        match first_step(b) {
            Utf8Step::Scalar(k) => all_scalar(b.skip(k as int)),
            _ => false,
        }
    }
}

/// A byte string made of scalar steps is valid UTF-8 in the sense of
/// `vstd::utf8`, and decodes to the text of its steps.
pub proof fn lemma_all_scalar_valid(b: Seq<u8>)
    requires
        all_scalar(b),
    ensures
        valid_utf8(b),
        decode_utf8(b) == decode_text(b).0,
        decode_text(b).1.len() == 0,
    decreases b.len(),
{
    if b.len() > 0 {
        lemma_step_len(b);
        lemma_scalar_step_valid(b);
        let k = step_len(first_step(b));
        assert(pop_first_scalar(b) == b.skip(k));
        lemma_all_scalar_valid(b.skip(k));
    }
}

/// Appending one scalar step to a well-formed byte string.
pub proof fn lemma_all_scalar_extend(x: Seq<u8>, y: Seq<u8>)
    requires
        all_scalar(x),
        y.len() > 0,
        first_step(y) is Scalar,
    ensures
        all_scalar(x + y.take(step_len(first_step(y)))),
        decode_text(x + y.take(step_len(first_step(y)))).0 == decode_text(x).0.push(
            decode_first_scalar(y) as char,
        ),
    decreases x.len(),
{
    lemma_step_len(y);
    let k = step_len(first_step(y));
    let yk = y.take(k);
    assert(yk + y.skip(k) == y);
    if x.len() == 0 {
        assert(x + yk == yk);
        // the first k bytes decide the step
        assert(yk[0] == y[0]);
        if k > 1 {
            assert(yk[1] == y[1]);
        }
        if k > 2 {
            assert(yk[2] == y[2]);
        }
        if k > 3 {
            assert(yk[3] == y[3]);
        }
        assert(first_step(yk) == first_step(y));
        assert(yk.skip(k).len() == 0);
        assert(decode_first_scalar(yk) == decode_first_scalar(y));
        assert(decode_text(yk.skip(k)).0 == Seq::<char>::empty());
        assert(decode_text(x).0 == Seq::<char>::empty());
        assert(all_scalar(yk.skip(k)));
        assert(all_scalar(yk));
    } else {
        lemma_step_len(x);
        let j = step_len(first_step(x));
        lemma_step_append(x, yk);
        assert((x + yk).skip(j) == x.skip(j) + yk);
        lemma_all_scalar_extend(x.skip(j), y);
        assert(all_scalar((x + yk).skip(j)));
        assert(first_step(x + yk) == first_step(x));
        lemma_step_len(x + yk);
        assert(all_scalar(x + yk));
    }
}

/// The chunks emitted while decoding `b` after a run `run` concatenate to
/// that run followed by the decoded text.
pub proof fn lemma_chunks_concat(b: Seq<u8>, run: Seq<char>)
    ensures
        concat_chunks(chunks_from(b, run)) == run + decode_text(b).0,
    decreases b.len(),
{
    lemma_concat_flush(run);
    if b.len() > 0 {
        lemma_step_len(b);
        match first_step(b) {
            Utf8Step::Scalar(k) => {
                let c = decode_first_scalar(b) as char;
                lemma_chunks_concat(b.skip(k as int), run.push(c));
                assert(run.push(c) + decode_text(b.skip(k as int)).0 == run + (seq![c]
                    + decode_text(b.skip(k as int)).0));
            },
            Utf8Step::Invalid(n) => {
                lemma_chunks_concat(b.skip(n as int), seq![]);
                let rest = chunks_from(b.skip(n as int), seq![]);
                lemma_concat_append(flush(run), seq![seq![REPLACEMENT]]);
                lemma_concat_append(flush(run) + seq![seq![REPLACEMENT]], rest);
                lemma_concat_single(seq![REPLACEMENT]);
                assert(seq![] + decode_text(b.skip(n as int)).0 == decode_text(
                    b.skip(n as int),
                ).0);
                assert(run + seq![REPLACEMENT] + decode_text(b.skip(n as int)).0 == run + (seq![
                    REPLACEMENT,
                ] + decode_text(b.skip(n as int)).0));
            },
            Utf8Step::Incomplete => {
                assert(run + seq![] == run);
            },
        }
    } else {
        assert(run + seq![] == run);
    }
}

proof fn lemma_concat_single(s: Seq<char>)
    ensures
        concat_chunks(seq![s]) == s,
{
    assert(seq![s].drop_first().len() == 0);
    assert(concat_chunks(seq![s].drop_first()) == Seq::<char>::empty());
    assert(s + seq![] == s);
}

proof fn lemma_concat_flush(run: Seq<char>)
    ensures
        concat_chunks(flush(run)) == run,
{
    if run.len() > 0 {
        lemma_concat_single(run);
    }
}

/// Concatenation distributes over appending chunk lists.
pub proof fn lemma_concat_append(a: Seq<Seq<char>>, b: Seq<Seq<char>>)
    ensures
        concat_chunks(a + b) == concat_chunks(a) + concat_chunks(b),
    decreases a.len(),
{
    if a.len() == 0 {
        assert(a + b == b);
        assert(seq![] + concat_chunks(b) == concat_chunks(b));
    } else {
        assert((a + b).drop_first() == a.drop_first() + b);
        lemma_concat_append(a.drop_first(), b);
        assert((a + b)[0] == a[0]);
    }
}

/// Decoding is stable under appending input: decoding `x + y` gives the
/// text decoded from `x`, then the text decoded from the unfinished tail of
/// `x` followed by `y`.
pub proof fn lemma_decode_text_append(x: Seq<u8>, y: Seq<u8>)
    ensures
        decode_text(x + y).0 == decode_text(x).0 + decode_text(decode_text(x).1 + y).0,
        decode_text(x + y).1 == decode_text(decode_text(x).1 + y).1,
    decreases x.len(),
{
    if x.len() == 0 {
        assert(x + y == y);
        assert(decode_text(x).1 + y == y);
        assert(seq![] + decode_text(y).0 == decode_text(y).0);
    } else {
        lemma_step_len(x);
        match first_step(x) {
            Utf8Step::Incomplete => {
                assert(seq![] + decode_text(x + y).0 == decode_text(x + y).0);
            },
            _ => {
                let k = step_len(first_step(x));
                lemma_step_append(x, y);
                assert((x + y).skip(k) == x.skip(k) + y);
                lemma_decode_text_append(x.skip(k), y);
                lemma_step_len(x + y);
            },
        }
    }
}


proof fn lemma_valid_codepoint_2(b0: u8, b1: u8)
    by (bit_vector)
    requires
        0xc0 <= b0 <= 0xdf,
        0x80 <= b1 <= 0xbf,
        0x80 <= codepoint_width_2(b0, b1),
    ensures
        0xc2 <= b0,
{
}

proof fn lemma_valid_codepoint_3(b0: u8, b1: u8, b2: u8)
    by (bit_vector)
    requires
        0xe0 <= b0 <= 0xef,
        0x80 <= b1 <= 0xbf,
        0x80 <= b2 <= 0xbf,
        0x800 <= codepoint_width_3(b0, b1, b2),
        !(0xd800 <= codepoint_width_3(b0, b1, b2) <= 0xdfff),
    ensures
        (b0 == 0xe0 && 0xa0 <= b1 <= 0xbf) || (0xe1 <= b0 <= 0xec && 0x80 <= b1 <= 0xbf) || (b0
            == 0xed && 0x80 <= b1 <= 0x9f) || (0xee <= b0 <= 0xef && 0x80 <= b1 <= 0xbf),
{
}

proof fn lemma_valid_codepoint_4(b0: u8, b1: u8, b2: u8, b3: u8)
    by (bit_vector)
    requires
        0xf0 <= b0 <= 0xf7,
        0x80 <= b1 <= 0xbf,
        0x80 <= b2 <= 0xbf,
        0x80 <= b3 <= 0xbf,
        0x10000 <= codepoint_width_4(b0, b1, b2, b3) <= 0x10ffff,
    ensures
        (b0 == 0xf0 && 0x90 <= b1 <= 0xbf) || (0xf1 <= b0 <= 0xf3 && 0x80 <= b1 <= 0xbf) || (b0
            == 0xf4 && 0x80 <= b1 <= 0x8f),
{
}

/// A well-formed first scalar in the sense of `vstd::utf8` is a scalar step.
pub proof fn lemma_valid_first_scalar_step(b: Seq<u8>)
    requires
        b.len() > 0,
        valid_first_scalar(b),
    ensures
        first_step(b) == Utf8Step::Scalar(length_of_first_scalar(b) as usize),
{
    let b0 = b[0];
    if is_leading_byte_width_1(b0) {
    } else if is_leading_byte_width_2(b0) {
        lemma_valid_codepoint_2(b0, b[1]);
    } else if is_leading_byte_width_3(b0) {
        lemma_valid_codepoint_3(b0, b[1], b[2]);
    } else {
        lemma_valid_codepoint_4(b0, b[1], b[2], b[3]);
    }
}

/// Whether the first `k` bytes of `b` begin some well-formed encoding of a
/// scalar (in the sense of `vstd::utf8`).
pub open spec fn begins_scalar(b: Seq<u8>, k: int) -> bool {
    exists|s: Seq<u8>| #[trigger] valid_first_scalar(s) && s.len() >= k && s.take(k) == b.take(k)
}

/// Law: an ill-formed sequence is skipped by its maximal subpart, as
/// `String::from_utf8_lossy` does (one U+FFFD per maximal subpart). The
/// bytes skipped are a proper beginning of some well-formed scalar (or a
/// single byte that begins none), and the byte after them cannot continue
/// that beginning; so a byte that may start the next character is never
/// swallowed.
pub proof fn lemma_invalid_is_maximal_subpart(b: Seq<u8>)
    requires
        b.len() > 0,
        first_step(b) is Invalid,
    ensures
        1 <= step_len(first_step(b)) <= b.len(),
        !valid_first_scalar(b),
        step_len(first_step(b)) >= 2 ==> begins_scalar(b, step_len(first_step(b))),
        step_len(first_step(b)) < b.len() ==> !begins_scalar(b, step_len(first_step(b)) + 1),
{
    let n = step_len(first_step(b));
    lemma_step_len(b);
    if valid_first_scalar(b) {
        lemma_valid_first_scalar_step(b);
    }
    let b0 = b[0];
    if n >= 2 {
        let s: Seq<u8> = if n == 2 && 0xe0 <= b0 <= 0xef {
            seq![b0, b[1], 0x80u8]
        } else if n == 2 {
            seq![b0, b[1], 0x80u8, 0x80u8]
        } else {
            seq![b0, b[1], b[2], 0x80u8]
        };
        assert(first_step(s) is Scalar);
        lemma_scalar_step_valid(s);
        assert(s.take(n) =~= b.take(n));
        assert(valid_first_scalar(s) && s.len() >= n && s.take(n) == b.take(n));
    }
    if n < b.len() {
        assert forall|s: Seq<u8>|
            #[trigger] valid_first_scalar(s) && s.len() >= n + 1 implies s.take(n + 1) != b.take(
                n + 1,
            ) by {
            if s.take(n + 1) == b.take(n + 1) {
                assert(s[0] == s.take(n + 1)[0] && b[0] == b.take(n + 1)[0]);
                assert(s[1] == s.take(n + 1)[1] && b[1] == b.take(n + 1)[1]);
                if n >= 2 {
                    assert(s[2] == s.take(n + 1)[2] && b[2] == b.take(n + 1)[2]);
                }
                if n >= 3 {
                    assert(s[3] == s.take(n + 1)[3] && b[3] == b.take(n + 1)[3]);
                }
                lemma_valid_first_scalar_step(s);
                assert(first_step(s) == first_step(b));
            }
        }
    }
}

/// Well-formed UTF-8 in the sense of `vstd::utf8` consists of scalar steps.
pub proof fn lemma_valid_all_scalar(b: Seq<u8>)
    requires
        valid_utf8(b),
    ensures
        all_scalar(b),
    decreases b.len(),
{
    if b.len() > 0 {
        lemma_valid_first_scalar_step(b);
        lemma_step_len(b);
        let k = length_of_first_scalar(b);
        assert(pop_first_scalar(b) == b.skip(k));
        lemma_valid_all_scalar(b.skip(k));
    }
}

/// Law: feeding input in two pieces decodes the same text, and leaves the
/// same bytes buffered, as feeding it at once.
pub proof fn lemma_push_split(pending: Seq<u8>, x: Seq<u8>, y: Seq<u8>)
    ensures
        decode_text(pending + x).0 + decode_text(decode_text(pending + x).1 + y).0
            == decode_text(pending + (x + y)).0,
        decode_text(decode_text(pending + x).1 + y).1 == decode_text(pending + (x + y)).1,
{
    assert(pending + (x + y) == (pending + x) + y);
    lemma_decode_text_append(pending + x, y);
}

/// Law: pushing bytes and then finishing the stream yields the lossy
/// decoding of everything that was fed.
pub proof fn lemma_push_finish(pending: Seq<u8>, x: Seq<u8>)
    ensures
        decode_text(pending + x).0 + lossy_text(decode_text(pending + x).1) == lossy_text(
            pending + x,
        ),
{
    let r = decode_text(pending + x).1;
    lemma_rest_unfinished(pending + x);
    if r.len() > 0 {
        lemma_step_len(r);
        assert(decode_text(r).0 == Seq::<char>::empty());
        assert(decode_text(r).1 == r);
    } else {
        assert(decode_text(r).0 == Seq::<char>::empty());
    }
}

/// The tail left undecided is empty or an incomplete sequence.
pub proof fn lemma_rest_unfinished(b: Seq<u8>)
    ensures
        decode_text(b).1.len() == 0 || (decode_text(b).1.len() > 0 && first_step(
            decode_text(b).1,
        ) is Incomplete),
    decreases b.len(),
{
    if b.len() > 0 {
        lemma_step_len(b);
        match first_step(b) {
            Utf8Step::Incomplete => {},
            _ => {
                lemma_rest_unfinished(b.skip(step_len(first_step(b))));
            },
        }
    }
}

/// Law: lossy decoding can be done in pieces: decoding the first part as
/// far as possible and then the rest together with the undecided tail gives
/// the lossy decoding of the whole.
pub proof fn lemma_lossy_append(x: Seq<u8>, rest: Seq<u8>)
    ensures
        decode_text(x).0 + lossy_text(decode_text(x).1 + rest) == lossy_text(x + rest),
{
    lemma_decode_text_append(x, rest);
    let r = decode_text(decode_text(x).1 + rest);
    assert(decode_text(x + rest).0 + (if r.1.len() == 0 {
        Seq::<char>::empty()
    } else {
        seq![REPLACEMENT]
    }) == decode_text(x).0 + (r.0 + if r.1.len() == 0 {
        Seq::<char>::empty()
    } else {
        seq![REPLACEMENT]
    }));
}

/// The bytes of a list of chunks, in order.
pub open spec fn concat_bytes(chunks: Seq<Seq<u8>>) -> Seq<u8>
    decreases chunks.len(),
{
    if chunks.len() == 0 {
        seq![]
    } else {
        chunks[0] + concat_bytes(chunks.drop_first())
    }
}

/// What pushing `chunks` one after another into a decoder holding
/// `pending` does, by the contract of `push`: the text appended to the
/// output, the bytes left buffered, and the text chunks returned.
pub open spec fn push_all(pending: Seq<u8>, chunks: Seq<Seq<u8>>) -> (
    Seq<char>,
    Seq<u8>,
    Seq<Seq<char>>,
)
    decreases chunks.len(),
{
    if chunks.len() == 0 {
        (seq![], pending, seq![])
    } else {
        let all = pending + chunks[0];
        let rest = push_all(decode_text(all).1, chunks.drop_first());
        (decode_text(all).0 + rest.0, rest.1, chunks_from(all, seq![]) + rest.2)
    }
}

/// The text chunks `finish` returns for buffered bytes `pending`.
pub open spec fn finish_chunks(pending: Seq<u8>) -> Seq<Seq<char>> {
    if pending.len() == 0 {
        seq![]
    } else {
        seq![seq![REPLACEMENT]]
    }
}

/// Pushing a list of chunks decodes like pushing their concatenation.
proof fn lemma_push_all_decodes(pending: Seq<u8>, chunks: Seq<Seq<u8>>)
    requires
        pending.len() == 0 || first_step(pending) is Incomplete,
    ensures
        push_all(pending, chunks).0 == decode_text(pending + concat_bytes(chunks)).0,
        push_all(pending, chunks).1 == decode_text(pending + concat_bytes(chunks)).1,
        concat_chunks(push_all(pending, chunks).2) == push_all(pending, chunks).0,
    decreases chunks.len(),
{
    if chunks.len() == 0 {
        assert(pending + concat_bytes(chunks) == pending);
        if pending.len() > 0 {
            lemma_step_len(pending);
        }
        assert(decode_text(pending).0 == Seq::<char>::empty());
        assert(decode_text(pending).1 == pending);
        assert(concat_chunks(Seq::<Seq<char>>::empty()) == Seq::<char>::empty());
    } else {
        let all = pending + chunks[0];
        let tail = chunks.drop_first();
        lemma_rest_unfinished(all);
        lemma_push_all_decodes(decode_text(all).1, tail);
        lemma_decode_text_append(all, concat_bytes(tail));
        assert(all + concat_bytes(tail) == pending + concat_bytes(chunks));
        lemma_chunks_concat(all, seq![]);
        assert(Seq::<char>::empty() + decode_text(all).0 == decode_text(all).0);
        lemma_concat_append(chunks_from(all, seq![]), push_all(decode_text(all).1, tail).2);
    }
}

/// The text chunks of `finish` spell out the lossy decoding of the bytes
/// left buffered after decoding `b`.
proof fn lemma_finish_chunks(b: Seq<u8>)
    ensures
        concat_chunks(finish_chunks(decode_text(b).1)) == lossy_text(decode_text(b).1),
{
    let r = decode_text(b).1;
    lemma_rest_unfinished(b);
    if r.len() > 0 {
        lemma_step_len(r);
        assert(decode_text(r).0 == Seq::<char>::empty());
        assert(decode_text(r).1 == r);
        lemma_concat_single(seq![REPLACEMENT]);
        assert(Seq::<char>::empty() + seq![REPLACEMENT] == seq![REPLACEMENT]);
    } else {
        assert(decode_text(r).0 == Seq::<char>::empty());
        assert(concat_chunks(Seq::<Seq<char>>::empty()) == Seq::<char>::empty());
    }
}

/// Law: a stream decoder fed any byte chunks one after another (they may
/// split code points or hold invalid bytes) and then finished appends to
/// its output exactly the lossy decoding of all the bytes fed, and the
/// text chunks it returns concatenate to the same text; finishing itself
/// appends nothing or a single U+FFFD.
pub proof fn lemma_stream_is_lossy_decoding(chunks: Seq<Seq<u8>>)
    ensures
        ({
            let (text, pending, emitted) = push_all(seq![], chunks);
            &&& text + lossy_text(pending) == lossy_text(concat_bytes(chunks))
            &&& concat_chunks(emitted + finish_chunks(pending)) == lossy_text(
                concat_bytes(chunks),
            )
            &&& lossy_text(pending) == Seq::<char>::empty() || lossy_text(pending) == seq![
                REPLACEMENT,
            ]
        }),
{
    let b = concat_bytes(chunks);
    assert(Seq::<u8>::empty() + b == b);
    lemma_push_all_decodes(seq![], chunks);
    lemma_push_finish(seq![], b);
    lemma_finish_chunks(b);
    let (text, pending, emitted) = push_all(seq![], chunks);
    assert(pending == decode_text(b).1);
    assert(text == decode_text(b).0);
    assert(concat_chunks(emitted) == text);
    lemma_concat_append(emitted, finish_chunks(pending));
    lemma_concat_single(seq![REPLACEMENT]);
    assert(concat_chunks(Seq::<Seq<char>>::empty()) == Seq::<char>::empty());
    assert(concat_chunks(finish_chunks(pending)) == lossy_text(pending));
}

/// Law: the UTF-8 encoding of any text, split into two pieces anywhere
/// (also inside a character), decodes back to exactly that text with
/// nothing left buffered.
pub proof fn lemma_stream_round_trip(text: Seq<char>, x: Seq<u8>, y: Seq<u8>)
    requires
        x + y == encode_utf8(text),
    ensures
        decode_text(x).0 + decode_text(decode_text(x).1 + y).0 == text,
        decode_text(decode_text(x).1 + y).1.len() == 0,
{
    encode_utf8_valid_utf8(text);
    encode_utf8_decode_utf8(text);
    lemma_valid_all_scalar(x + y);
    lemma_all_scalar_valid(x + y);
    lemma_decode_text_append(x, y);
}

/// `String::from_utf8`: succeeds exactly on well-formed UTF-8, and the
/// string then holds the decoded characters.
#[verifier::external_body]
fn string_from_utf8(bytes: Vec<u8>) -> (r: Option<String>)
    ensures
        r is Some <==> valid_utf8(bytes@),
        r matches Some(s) ==> s@ == decode_utf8(bytes@),
{
    String::from_utf8(bytes).ok()
}

/// Classify the sequence that starts at `pos`.
pub fn scan_step(b: &Vec<u8>, pos: usize) -> (s: Utf8Step)
    requires
        pos < b@.len(),
    ensures
        s == first_step(b@.skip(pos as int)),
{
    let ghost t = b@.skip(pos as int);
    let len = b.len();
    let b0 = b[pos];
    assert(t[0] == b0);
    if b0 < 0x80 {
        return Utf8Step::Scalar(1);
    }
    let width: usize = if 0xc2 <= b0 && b0 <= 0xdf {
        2
    } else if 0xe0 <= b0 && b0 <= 0xef {
        3
    } else if 0xf0 <= b0 && b0 <= 0xf4 {
        4
    } else {
        0
    };
    if width == 0 {
        return Utf8Step::Invalid(1);
    }
    if len - pos < 2 {
        return Utf8Step::Incomplete;
    }
    let b1 = b[pos + 1];
    assert(t[1] == b1);
    if width == 2 {
        if 0x80 <= b1 && b1 <= 0xbf {
            return Utf8Step::Scalar(2);
        } else {
            return Utf8Step::Invalid(1);
        }
    }
    let second_ok = if width == 3 {
        (b0 == 0xe0 && 0xa0 <= b1 && b1 <= 0xbf) || (0xe1 <= b0 && b0 <= 0xec && 0x80 <= b1 && b1
            <= 0xbf) || (b0 == 0xed && 0x80 <= b1 && b1 <= 0x9f) || (0xee <= b0 && b0 <= 0xef
            && 0x80 <= b1 && b1 <= 0xbf)
    } else {
        (b0 == 0xf0 && 0x90 <= b1 && b1 <= 0xbf) || (0xf1 <= b0 && b0 <= 0xf3 && 0x80 <= b1 && b1
            <= 0xbf) || (b0 == 0xf4 && 0x80 <= b1 && b1 <= 0x8f)
    };
    if !second_ok {
        return Utf8Step::Invalid(1);
    }
    if len - pos < 3 {
        return Utf8Step::Incomplete;
    }
    let b2 = b[pos + 2];
    assert(t[2] == b2);
    if !(0x80 <= b2 && b2 <= 0xbf) {
        return Utf8Step::Invalid(2);
    }
    if width == 3 {
        return Utf8Step::Scalar(3);
    }
    if len - pos < 4 {
        return Utf8Step::Incomplete;
    }
    let b3 = b[pos + 3];
    assert(t[3] == b3);
    if !(0x80 <= b3 && b3 <= 0xbf) {
        return Utf8Step::Invalid(3);
    }
    Utf8Step::Scalar(4)
}

/// The text of a run of well-formed bytes `b[start..end]`.
fn run_text(b: &Vec<u8>, start: usize, end: usize) -> (s: String)
    requires
        start <= end <= b@.len(),
        all_scalar(b@.subrange(start as int, end as int)),
    ensures
        s@ == decode_text(b@.subrange(start as int, end as int)).0,
{
    let mut bytes: Vec<u8> = Vec::new();
    let mut i = start;
    while i < end
        invariant
            start <= i <= end <= b@.len(),
            bytes@ == b@.subrange(start as int, i as int),
        decreases end - i,
    {
        bytes.push(b[i]);
        i = i + 1;
    }
    proof {
        lemma_all_scalar_valid(b@.subrange(start as int, end as int));
    }
    string_from_utf8(bytes).unwrap()
}

/// A string holding the replacement character alone.
fn replacement_string() -> (s: String)
    ensures
        s@ == seq![REPLACEMENT],
{
    proof {
        reveal_strlit("\u{FFFD}");
    }
    String::from_str("\u{FFFD}")
}

/// Views of a list of strings.
pub open spec fn string_views(v: Seq<String>) -> Seq<Seq<char>> {
    v.map_values(|s: String| s@)
}

/// Incremental UTF-8 decoder for streamed token bytes.
#[derive(Debug)]
pub struct Utf8StreamDecoder {
    pending: Vec<u8>,
}

impl Utf8StreamDecoder {
    /// The buffered bytes: empty, or an incomplete sequence.
    #[verifier::type_invariant]
    spec fn pending_is_unfinished(self) -> bool {
        self.pending@.len() == 0 || first_step(self.pending@) is Incomplete
    }

    /// Bytes buffered until more input decides them.
    pub closed spec fn pending(&self) -> Seq<u8> {
        self.pending@
    }

    /// Feed the next bytes; decoded text is appended to `output` and also
    /// returned as the chunks in which it became available.
    pub fn push(&mut self, bytes: &[u8], output: &mut String) -> (chunks: Vec<String>)
        ensures
            final(self).pending() == decode_text(old(self).pending() + bytes@).1,
            final(output)@ == old(output)@ + decode_text(old(self).pending() + bytes@).0,
            string_views(chunks@) == chunks_from(old(self).pending() + bytes@, seq![]),
    {
        proof {
            use_type_invariant(&*self);
        }
        let mut buf: Vec<u8> = Vec::new();
        let plen = self.pending.len();
        let mut i: usize = 0;
        while i < plen
            invariant
                i <= plen == self.pending@.len(),
                buf@ == self.pending@.take(i as int),
            decreases plen - i,
        {
            buf.push(self.pending[i]);
            i = i + 1;
        }
        let mut j: usize = 0;
        while j < bytes.len()
            invariant
                j <= bytes@.len(),
                buf@ == self.pending@ + bytes@.take(j as int),
            decreases bytes@.len() - j,
        {
            buf.push(bytes[j]);
            j = j + 1;
        }
        assert(self.pending@.take(plen as int) == self.pending@);
        assert(bytes@.take(bytes@.len() as int) == bytes@);
        let ghost all = buf@;
        let ghost out0 = output@;
        let mut chunks: Vec<String> = Vec::new();
        let ghost mut emitted: Seq<Seq<char>> = seq![];
        let ghost mut run: Seq<char> = seq![];
        let mut pos: usize = 0;
        let mut run_start: usize = 0;
        let mut done = false;
        assert(all.skip(0) == all);
        assert(all.subrange(0, 0).len() == 0);
        assert(seq![] + run + decode_text(all).0 == decode_text(all).0);
        assert(emitted + chunks_from(all, run) == chunks_from(all, run));
        while !done && pos < buf.len()
            invariant
                buf@ == all,
                run_start <= pos <= all.len(),
                all_scalar(all.subrange(run_start as int, pos as int)),
                decode_text(all.subrange(run_start as int, pos as int)).0 == run,
                string_views(chunks@) == emitted,
                output@ == out0 + concat_chunks(emitted),
                chunks_from(all, seq![]) == emitted + chunks_from(all.skip(pos as int), run),
                decode_text(all).0 == concat_chunks(emitted) + run + decode_text(
                    all.skip(pos as int),
                ).0,
                decode_text(all).1 == decode_text(all.skip(pos as int)).1,
                done ==> pos < all.len() && first_step(all.skip(pos as int)) is Incomplete,
            decreases all.len() - pos + if done {
                0int
            } else {
                1int
            },
        {
            let step = scan_step(&buf, pos);
            let ghost t = all.skip(pos as int);
            proof {
                lemma_step_len(t);
            }
            match step {
                Utf8Step::Scalar(k) => {
                    let ghost c = decode_first_scalar(t) as char;
                    proof {
                        lemma_all_scalar_extend(all.subrange(run_start as int, pos as int), t);
                        assert(all.subrange(run_start as int, pos as int) + t.take(k as int)
                            == all.subrange(run_start as int, pos + k));
                        assert(t.skip(k as int) == all.skip(pos + k));
                        assert(run + (seq![c] + decode_text(t.skip(k as int)).0) == run.push(c)
                            + decode_text(t.skip(k as int)).0);
                        assert(concat_chunks(emitted) + run + (seq![c] + decode_text(
                            t.skip(k as int),
                        ).0) == concat_chunks(emitted) + run.push(c) + decode_text(
                            t.skip(k as int),
                        ).0);
                        run = run.push(c);
                    }
                    pos = pos + k;
                },
                Utf8Step::Invalid(n) => {
                    let ghost old_emitted = emitted;
                    if pos > run_start {
                        let text = run_text(&buf, run_start, pos);
                        output.append(text.as_str());
                        chunks.push(text);
                    }
                    let r = replacement_string();
                    output.append(r.as_str());
                    chunks.push(r);
                    proof {
                        emitted = emitted + flush(run) + seq![seq![REPLACEMENT]];
                        assert(string_views(chunks@) =~= emitted);
                        lemma_concat_append(old_emitted, flush(run));
                        lemma_concat_append(old_emitted + flush(run), seq![seq![REPLACEMENT]]);
                        lemma_concat_flush(run);
                        lemma_concat_single(seq![REPLACEMENT]);
                        assert(output@ =~= out0 + concat_chunks(emitted));
                        assert(t.skip(n as int) == all.skip(pos + n));
                        assert(chunks_from(all, seq![]) =~= emitted + chunks_from(
                            all.skip(pos + n),
                            seq![],
                        ));
                        assert(decode_text(all).0 =~= concat_chunks(emitted) + seq![]
                            + decode_text(all.skip(pos + n)).0);
                        run = seq![];
                    }
                    pos = pos + n;
                    run_start = pos;
                    assert(all.subrange(run_start as int, pos as int).len() == 0);
                },
                Utf8Step::Incomplete => {
                    done = true;
                },
            }
        }
        // flush the open run
        let ghost old_emitted = emitted;
        if pos > run_start {
            let text = run_text(&buf, run_start, pos);
            output.append(text.as_str());
            chunks.push(text);
        }
        proof {
            emitted = emitted + flush(run);
            assert(string_views(chunks@) =~= emitted);
            lemma_concat_append(old_emitted, flush(run));
            lemma_concat_flush(run);
            if pos < all.len() {
                lemma_step_len(all.skip(pos as int));
            }
            assert(chunks_from(all, seq![]) =~= emitted);
            assert(decode_text(all).0 =~= concat_chunks(emitted));
            assert(output@ =~= out0 + decode_text(all).0);
        }
        let rest = buf.split_off(pos);
        proof {
            assert(rest@ =~= all.skip(pos as int));
            if pos < all.len() {
                assert(decode_text(all.skip(pos as int)).1 == all.skip(pos as int));
            }
        }
        self.pending = rest;
        chunks
    }

    /// End of stream: an incomplete sequence still buffered is replaced by
    /// U+FFFD, as lossy decoding does.
    pub fn finish(&mut self, output: &mut String) -> (chunks: Vec<String>)
        ensures
            final(self).pending().len() == 0,
            old(self).pending().len() == 0 ==> final(output)@ == old(output)@ && chunks@.len()
                == 0,
            old(self).pending().len() != 0 ==> final(output)@ == old(output)@ + seq![REPLACEMENT]
                && string_views(chunks@) == seq![seq![REPLACEMENT]],
            final(output)@ == old(output)@ + lossy_text(old(self).pending()),
    {
        proof {
            use_type_invariant(&*self);
        }
        let mut chunks: Vec<String> = Vec::new();
        if self.pending.len() > 0 {
            let r = replacement_string();
            output.append(r.as_str());
            chunks.push(r);
            proof {
                lemma_step_len(self.pending@);
                assert(string_views(chunks@) =~= seq![seq![REPLACEMENT]]);
            }
        } else {
            assert(output@ + seq![] == output@);
        }
        self.pending = Vec::new();
        chunks
    }
}

impl Default for Utf8StreamDecoder {
    fn default() -> (d: Self)
        ensures
            d.pending().len() == 0,
    {
        Utf8StreamDecoder { pending: Vec::new() }
    }
}
} // verus!
