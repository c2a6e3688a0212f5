//! Frame geometry of the streaming inverse-STFT vocoder.
//!
//! The vocoder turns spectral frames into audio by overlap-add. The sample
//! arithmetic is floating point and stays with the caller; this module
//! holds the integer side of it: the sizes of frames and embeddings, the
//! validation of the input the model hands over, the padding removed from
//! the start of a stream, and how the tail is drained when it ends.

use vstd::prelude::*;
use vstd::string::*;
use crate::error::ForgeError;
use crate::text::{decimal, u64_to_decimal};

verus! {

/// Default FFT size.
pub const DEFAULT_N_FFT: usize = 1280;

/// Default hop length.
pub const DEFAULT_HOP_LENGTH: usize = 320;

/// Default sample rate in Hz.
pub const DEFAULT_SAMPLE_RATE: u32 = 24000;

/// Number of frequency bins of a real spectrum of size `n_fft`.
pub open spec fn n_fft_bins(n_fft: int) -> int {
    n_fft / 2 + 1
}

/// Samples dropped from the start of a stream: half of the part of the
/// first frame that is not a hop.
pub open spec fn initial_padding(n_fft: int, hop_length: int) -> int {
    (n_fft - hop_length) / 2
}

/// The chunk sizes in which `remaining` buffered samples are drained, at
/// most `hop_length` at a time.
pub open spec fn drain_plan(remaining: nat, hop_length: nat) -> Seq<usize>
    decreases remaining,
{
    if remaining == 0 || hop_length == 0 {
        Seq::empty()
    } else if remaining <= hop_length {
        seq![remaining as usize]
    } else {
        seq![hop_length as usize] + drain_plan((remaining - hop_length) as nat, hop_length)
    }
}

/// The message for a spectral frame of the wrong length.
pub open spec fn frame_len_message(n_fft_bins: int, len: int) -> Seq<char> {
    "Expected "@ + decimal((n_fft_bins * 2) as nat) + " values ("@ + decimal(n_fft_bins as nat)
        + "*2), got "@ + decimal(len as nat)
}

/// The message for an embedding of odd length.
pub open spec fn odd_embedding_message(len: int) -> Seq<char> {
    "Embedding size must be even, got "@ + decimal(len as nat)
}

/// The message for an embedding whose halves do not match the bins.
pub open spec fn bins_mismatch_message(n_fft_bins: int, half: int) -> Seq<char> {
    "Expected "@ + decimal(n_fft_bins as nat) + " frequency bins, got "@ + decimal(half as nat)
}

/// Whether `e` is an invalid-parameter error carrying message `msg`.
pub open spec fn is_invalid_parameter_msg(e: ForgeError, msg: Seq<char>) -> bool {
    e matches ForgeError::InvalidParameter(m) && m@ == msg
}

/// The integer state of a streaming vocoder: FFT size, hop length and the
/// padding still to be dropped from the start of the stream.
#[derive(Debug, Clone, Copy)]
pub struct IstftLayout {
    n_fft: usize,
    hop_length: usize,
    padding_to_remove: usize,
}

impl IstftLayout {
    /// FFT size.
    pub closed spec fn spec_n_fft(&self) -> int {
        self.n_fft as int
    }

    /// Hop length.
    pub closed spec fn spec_hop_length(&self) -> int {
        self.hop_length as int
    }

    /// Samples still to be dropped from the start of the stream.
    pub closed spec fn spec_padding(&self) -> int {
        self.padding_to_remove as int
    }

    /// Well-formedness: the hop fits in a frame, frame buffers of `n_fft`
    /// complex single-precision samples can be allocated, and the padding
    /// never exceeds its initial value.
    pub open spec fn wf(&self) -> bool {
        &&& self.spec_hop_length() <= self.spec_n_fft()
        &&& self.spec_n_fft() * 8 <= isize::MAX
        &&& 0 <= self.spec_padding() <= initial_padding(self.spec_n_fft(), self.spec_hop_length())
    }

    /// The layout of a vocoder with FFT size `n_fft` and hop `hop_length`,
    /// at the start of a stream.
    pub fn new(n_fft: usize, hop_length: usize) -> (r: Self)
        requires
            hop_length <= n_fft,
            n_fft * 8 <= isize::MAX,
        ensures
            r.wf(),
            r.spec_n_fft() == n_fft,
            r.spec_hop_length() == hop_length,
            r.spec_padding() == initial_padding(n_fft as int, hop_length as int),
            // half of the part of the frame that is not a hop, rounded down
            2 * r.spec_padding() + hop_length == n_fft || 2 * r.spec_padding() + hop_length + 1
                == n_fft,
    {
        IstftLayout { n_fft, hop_length, padding_to_remove: (n_fft - hop_length) / 2 }
    }

    /// The layout with the default parameters.
    pub fn new_default() -> (r: Self)
        ensures
            r.wf(),
            r.spec_n_fft() == DEFAULT_N_FFT,
            r.spec_hop_length() == DEFAULT_HOP_LENGTH,
            r.spec_padding() == 480,
    {
        Self::new(DEFAULT_N_FFT, DEFAULT_HOP_LENGTH)
    }

    /// Start a new stream: the initial padding is due again.
    pub fn reset(&mut self)
        requires
            old(self).wf(),
        ensures
            final(self).wf(),
            final(self).spec_n_fft() == old(self).spec_n_fft(),
            final(self).spec_hop_length() == old(self).spec_hop_length(),
            final(self).spec_padding() == initial_padding(
                old(self).spec_n_fft(),
                old(self).spec_hop_length(),
            ),
            ({
                let p = final(self).spec_padding();
                let h = final(self).spec_hop_length();
                let n = final(self).spec_n_fft();
                2 * p + h == n || 2 * p + h + 1 == n
            }),
    {
        self.padding_to_remove = (self.n_fft - self.hop_length) / 2;
    }

    /// FFT size.
    pub fn n_fft(&self) -> (r: usize)
        ensures
            r == self.spec_n_fft(),
    {
        self.n_fft
    }

    /// Hop length.
    pub fn hop_length(&self) -> (r: usize)
        ensures
            r == self.spec_hop_length(),
    {
        self.hop_length
    }

    /// Number of frequency bins.
    pub fn n_fft_bins(&self) -> (r: usize)
        requires
            self.wf(),
        ensures
            r == n_fft_bins(self.spec_n_fft()),
    {
        self.n_fft / 2 + 1
    }

    /// Values per frame (and per embedding): two per frequency bin.
    pub fn embedding_size(&self) -> (r: usize)
        requires
            self.wf(),
        ensures
            r == 2 * n_fft_bins(self.spec_n_fft()),
    {
        (self.n_fft / 2 + 1) * 2
    }

    /// Check that a spectral frame of `len` interleaved values has one
    /// real and one imaginary part per bin.
    pub fn check_frame(&self, len: usize) -> (r: Result<(), ForgeError>)
        requires
            self.wf(),
        ensures
            len == 2 * n_fft_bins(self.spec_n_fft()) ==> r is Ok,
            len != 2 * n_fft_bins(self.spec_n_fft()) ==> (r matches Err(e)
                && is_invalid_parameter_msg(
                e,
                frame_len_message(n_fft_bins(self.spec_n_fft()), len as int),
            )),
    {
        let bins = self.n_fft_bins();
        let expected = bins * 2;
        if len == expected {
            Ok(())
        } else {
            let msg = String::from_str("Expected ");
            let msg = msg.concat(u64_to_decimal(expected as u64).as_str());
            let msg = msg.concat(" values (");
            let msg = msg.concat(u64_to_decimal(bins as u64).as_str());
            let msg = msg.concat("*2), got ");
            let msg = msg.concat(u64_to_decimal(len as u64).as_str());
            Err(ForgeError::InvalidParameter(msg))
        }
    }

    /// Check an embedding of `len` values (log magnitudes, then phases) and
    /// give the number of bins it describes.
    pub fn check_embedding(&self, len: usize) -> (r: Result<usize, ForgeError>)
        requires
            self.wf(),
        ensures
            len % 2 == 1 ==> (r matches Err(e) && is_invalid_parameter_msg(
                e,
                odd_embedding_message(len as int),
            )),
            len % 2 == 0 && len / 2 != n_fft_bins(self.spec_n_fft()) ==> (r matches Err(e)
                && is_invalid_parameter_msg(
                e,
                bins_mismatch_message(n_fft_bins(self.spec_n_fft()), (len / 2) as int),
            )),
            len % 2 == 0 && len / 2 == n_fft_bins(self.spec_n_fft()) ==> r == Ok::<
                usize,
                ForgeError,
            >((len / 2) as usize),
    {
        if len % 2 != 0 {
            let msg = String::from_str("Embedding size must be even, got ");
            let msg = msg.concat(u64_to_decimal(len as u64).as_str());
            return Err(ForgeError::InvalidParameter(msg));
        }
        let half = len / 2;
        let bins = self.n_fft_bins();
        if half != bins {
            let msg = String::from_str("Expected ");
            let msg = msg.concat(u64_to_decimal(bins as u64).as_str());
            let msg = msg.concat(" frequency bins, got ");
            let msg = msg.concat(u64_to_decimal(half as u64).as_str());
            return Err(ForgeError::InvalidParameter(msg));
        }
        Ok(half)
    }

    /// Of `produced` samples just extracted, how many are padding to drop
    /// from their front; the padding still due shrinks by that much.
    pub fn take_padding(&mut self, produced: usize) -> (removed: usize)
        requires
            old(self).wf(),
        ensures
            final(self).wf(),
            removed == if old(self).spec_padding() < produced {
                old(self).spec_padding()
            } else {
                produced as int
            },
            final(self).spec_padding() == old(self).spec_padding() - removed,
            final(self).spec_n_fft() == old(self).spec_n_fft(),
            final(self).spec_hop_length() == old(self).spec_hop_length(),
    {
        let removed = if self.padding_to_remove < produced {
            self.padding_to_remove
        } else {
            produced
        };
        self.padding_to_remove = self.padding_to_remove - removed;
        removed
    }

    /// The chunk sizes in which the `n_fft - hop_length` samples still in
    /// the overlap buffer are drained at the end of a stream.
    pub fn drain_chunks(&self) -> (r: Vec<usize>)
        requires
            self.wf(),
            self.spec_hop_length() > 0 || self.spec_hop_length() == self.spec_n_fft(),
        ensures
            r@ == drain_plan(
                (self.spec_n_fft() - self.spec_hop_length()) as nat,
                self.spec_hop_length() as nat,
            ),
    {
        let total: usize = self.n_fft - self.hop_length;
        let hop = self.hop_length;
        let mut chunks: Vec<usize> = Vec::new();
        let mut remaining: usize = total;
        while remaining > 0
            invariant
                remaining <= total,
                hop > 0 || total == 0,
                chunks@ + drain_plan(remaining as nat, hop as nat) == drain_plan(
                    total as nat,
                    hop as nat,
                ),
            decreases remaining,
        {
            let size = if remaining < hop {
                remaining
            } else {
                hop
            };
            proof {
                let rest = drain_plan(remaining as nat, hop as nat);
                let next = drain_plan((remaining - size) as nat, hop as nat);
                if remaining <= hop {
                    assert(rest =~= seq![size]);
                    assert(next =~= Seq::<usize>::empty());
                } else {
                    assert(rest =~= seq![size] + next);
                }
                assert(chunks@.push(size) + next =~= chunks@ + rest);
            }
            chunks.push(size);
            remaining = remaining - size;
        }
        proof {
            assert(drain_plan(0, hop as nat) =~= Seq::<usize>::empty());
            assert(chunks@ + Seq::<usize>::empty() =~= chunks@);
        }
        chunks
    }
}

/// Law: draining gives back exactly the samples still buffered, in chunks
/// of at most one hop, all but the last of exactly one hop.
pub proof fn lemma_drain_plan_covers(remaining: nat, hop_length: nat)
    requires
        0 < hop_length <= usize::MAX,
        remaining <= usize::MAX,
    ensures
        drain_sum(drain_plan(remaining, hop_length)) == remaining,
        forall|i: int|
            0 <= i < drain_plan(remaining, hop_length).len() ==> 0 < #[trigger] drain_plan(
                remaining,
                hop_length,
            )[i] <= hop_length,
        forall|i: int|
            0 <= i < drain_plan(remaining, hop_length).len() - 1 ==> #[trigger] drain_plan(
                remaining,
                hop_length,
            )[i] == hop_length,
    decreases remaining,
{
    let p = drain_plan(remaining, hop_length);
    if remaining == 0 {
    } else if remaining <= hop_length {
        assert(p =~= seq![remaining as usize]);
        assert(drain_sum(p) == p[0] + drain_sum(p.drop_first()));
        assert(p.drop_first() =~= Seq::<usize>::empty());
    } else {
        let rest = drain_plan((remaining - hop_length) as nat, hop_length);
        lemma_drain_plan_covers((remaining - hop_length) as nat, hop_length);
        assert(p =~= seq![hop_length as usize] + rest);
        assert(p.drop_first() =~= rest);
        assert(drain_sum(p) == p[0] + drain_sum(p.drop_first()));
        assert forall|i: int| 0 <= i < p.len() implies 0 < #[trigger] p[i] <= hop_length by {
            if i > 0 {
                assert(p[i] == rest[i - 1]);
            }
        }
        assert forall|i: int| 0 <= i < p.len() - 1 implies #[trigger] p[i] == hop_length by {
            if i > 0 {
                assert(p[i] == rest[i - 1]);
            }
        }
    }
}

/// Law: the start padding of a stream is half of the part of a frame that
/// is not a hop (rounded down): the padding twice over, plus one hop, makes
/// up the frame, or the frame less one sample. It grows with the frame and
/// shrinks as the hop grows.
pub proof fn lemma_start_padding(n_fft: int, hop_length: int)
    requires
        0 <= hop_length <= n_fft,
    ensures
        0 <= initial_padding(n_fft, hop_length),
        2 * initial_padding(n_fft, hop_length) + hop_length == n_fft || 2 * initial_padding(
            n_fft,
            hop_length,
        ) + hop_length + 1 == n_fft,
        hop_length < n_fft ==> initial_padding(n_fft, hop_length + 1) <= initial_padding(
            n_fft,
            hop_length,
        ),
        hop_length == n_fft ==> initial_padding(n_fft, hop_length) == 0,
{
}

/// Total number of samples in a sequence of chunks.
pub open spec fn drain_sum(chunks: Seq<usize>) -> int
    decreases chunks.len(),
{
    if chunks.len() == 0 {
        0
    } else {
        chunks[0] + drain_sum(chunks.drop_first())
    }
}

/// Samples that `k` frames return, each extracting one hop of
/// `hop_length` samples from which `take_padding` drops what is still due
/// of `padding`.
pub open spec fn frames_output(padding: nat, hop_length: nat, k: nat) -> nat
    decreases k,
{
    if k == 0 {
        0
    } else {
        let removed = if padding < hop_length {
            padding
        } else {
            hop_length
        };
        (hop_length - removed) as nat + frames_output(
            (padding - removed) as nat,
            hop_length,
            (k - 1) as nat,
        )
    }
}

/// Law: only the start padding of a stream is dropped. Over `k` frames of
/// one hop each, starting with `padding` samples due (after `new` or
/// `reset`, `initial_padding`), the frames return `k * hop_length` samples
/// less the padding, or none while the padding is not yet used up.
pub proof fn lemma_only_padding_dropped(padding: nat, hop_length: nat, k: nat)
    ensures
        frames_output(padding, hop_length, k) == k * hop_length - (if k * hop_length < padding {
            (k * hop_length) as int
        } else {
            padding as int
        }),
    decreases k,
{
    if k > 0 {
        let removed: nat = if padding < hop_length {
            padding
        } else {
            hop_length
        };
        lemma_only_padding_dropped((padding - removed) as nat, hop_length, (k - 1) as nat);
        assert(frames_output(padding, hop_length, k) == (hop_length - removed) + frames_output(
            (padding - removed) as nat,
            hop_length,
            (k - 1) as nat,
        ));
        let k1 = (k - 1) as nat;
        assert(k * hop_length == hop_length + k1 * hop_length) by (nonlinear_arith)
            requires
                k1 == k - 1,
        ;
        let m = k1 * hop_length;
        assert(m >= 0);
        let rest = frames_output((padding - removed) as nat, hop_length, k1);
        if padding < hop_length {
            assert(rest == m);
            assert(frames_output(padding, hop_length, k) == hop_length - padding + m);
        } else {
            assert(removed == hop_length);
            if padding >= k * hop_length {
                assert(rest == 0);
            } else {
                assert(rest == m - (padding - hop_length));
            }
        }
    } else {
        assert(k * hop_length == 0) by (nonlinear_arith)
            requires
                k == 0,
        ;
    }
}

} // verus!
