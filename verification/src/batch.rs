//! Batch assembly with arena-style reuse.
//!
//! The arena holds the tokens of the next decode call together with their
//! positions, sequence ids and logit flags. It is filled up to a fixed
//! capacity and reset in place for reuse; the native batch that the decode
//! call reads is built from these entries.

use vstd::prelude::*;

verus! {

/// One token slot of a batch.
#[derive(PartialEq, Eq, Structural, Debug, Clone, Copy)]
pub struct BatchToken {
    /// Token id
    pub token: i32,
    /// Position of the token in its sequence
    pub pos: i32,
    /// Sequence the token belongs to
    pub seq_id: i32,
    /// Whether logits are requested for this token
    pub logits: bool,
}

/// The entries `add_tokens` appends: token `i` of `tokens` at position
/// `start_pos + i`, with logits requested for the last token of `tokens`
/// only, for the first `n` tokens.
pub open spec fn token_entries(tokens: Seq<i32>, start_pos: int, seq_id: i32, n: int) -> Seq<
    BatchToken,
> {
    Seq::new(
        n as nat,
        |i: int|
            BatchToken {
                token: tokens[i],
                pos: (start_pos + i) as i32,
                seq_id: seq_id,
                logits: i == tokens.len() - 1,
            },
    )
}

/// Arena-style batch allocator: a batch of fixed capacity that is filled
/// and reset for reuse.
pub struct BatchArena {
    /// Tokens currently in the batch
    entries: Vec<BatchToken>,
    /// Maximum number of tokens this batch can hold
    capacity: i32,
    /// Current number of tokens in the batch
    len: i32,
    /// Maximum number of sequences
    n_seq_max: i32,
}

impl BatchArena {
    /// Well-formedness: the entry count agrees with `len`, which stays
    /// within the capacity.
    pub closed spec fn wf(&self) -> bool {
        &&& self.len >= 0
        &&& self.entries@.len() == self.len
        &&& (self.len == 0 || self.len <= self.capacity)
    }

    /// The tokens in the batch, in order.
    pub closed spec fn view(&self) -> Seq<BatchToken> {
        self.entries@
    }

    /// The capacity the arena was created with.
    pub closed spec fn spec_capacity(&self) -> int {
        self.capacity as int
    }

    /// The sequence count the arena was created with.
    pub closed spec fn spec_n_seq_max(&self) -> int {
        self.n_seq_max as int
    }

    /// Free slots left (none when the capacity is not positive).
    pub open spec fn free_slots(&self) -> int {
        if self.spec_capacity() > self.view().len() {
            self.spec_capacity() - self.view().len()
        } else {
            0
        }
    }

    /// Create a new batch arena with the specified capacity.
    ///
    /// * `n_tokens` - Maximum number of tokens the batch can hold
    /// * `n_seq_max` - Maximum number of sequences (usually 1)
    pub fn new(n_tokens: i32, n_seq_max: i32) -> (r: Self)
        ensures
            r.wf(),
            r.view().len() == 0,
            r.spec_capacity() == n_tokens,
            r.spec_n_seq_max() == n_seq_max,
    {
        let entries: Vec<BatchToken> = if n_tokens > 0 {
            Vec::with_capacity(n_tokens as usize)
        } else {
            Vec::new()
        };
        BatchArena { entries, capacity: n_tokens, len: 0, n_seq_max }
    }

    /// Reset the batch for reuse.
    pub fn reset(&mut self)
        requires
            old(self).wf(),
        ensures
            final(self).wf(),
            final(self).view().len() == 0,
            final(self).spec_capacity() == old(self).spec_capacity(),
            final(self).spec_n_seq_max() == old(self).spec_n_seq_max(),
    {
        self.entries.clear();
        self.len = 0;
    }

    /// Add a token to the batch; `false` when the batch is full.
    pub fn add_token(&mut self, token: i32, pos: i32, seq_id: i32, logits: bool) -> (r: bool)
        requires
            old(self).wf(),
        ensures
            final(self).wf(),
            r == (old(self).view().len() < old(self).spec_capacity()),
            r ==> final(self).view() == old(self).view().push(
                BatchToken { token, pos, seq_id, logits },
            ),
            !r ==> final(self).view() == old(self).view(),
            final(self).spec_capacity() == old(self).spec_capacity(),
            final(self).spec_n_seq_max() == old(self).spec_n_seq_max(),
    {
        if self.len >= self.capacity {
            return false;
        }
        self.entries.push(BatchToken { token, pos, seq_id, logits });
        self.len = self.len + 1;
        true
    }

    /// Add several tokens at consecutive positions starting at `start_pos`,
    /// requesting logits for the last one; returns how many were added
    /// (fewer than requested when the batch fills up).
    pub fn add_tokens(&mut self, tokens: &[i32], start_pos: i32, seq_id: i32) -> (added: i32)
        requires
            old(self).wf(),
            tokens@.len() == 0 || start_pos + if tokens@.len() - 1 < old(self).free_slots() {
                tokens@.len() - 1
            } else {
                old(self).free_slots()
            } <= i32::MAX,
        ensures
            final(self).wf(),
            added == if tokens@.len() < old(self).free_slots() {
                tokens@.len() as int
            } else {
                old(self).free_slots()
            },
            final(self).view() == old(self).view() + token_entries(
                tokens@,
                start_pos as int,
                seq_id,
                added as int,
            ),
            final(self).spec_capacity() == old(self).spec_capacity(),
            final(self).spec_n_seq_max() == old(self).spec_n_seq_max(),
    {
        let ghost v0 = self.view();
        let ghost free = old(self).free_slots();
        let mut added: i32 = 0;
        let mut i: usize = 0;
        while i < tokens.len()
            invariant
                i <= tokens@.len(),
                i == added,
                added <= free,
                self.wf(),
                free == if self.spec_capacity() > v0.len() {
                    self.spec_capacity() - v0.len()
                } else {
                    0
                },
                self.view().len() == v0.len() + added,
                self.view() == v0 + token_entries(tokens@, start_pos as int, seq_id, added as int),
                self.spec_capacity() == old(self).spec_capacity(),
                self.spec_n_seq_max() == old(self).spec_n_seq_max(),
                tokens@.len() == 0 || start_pos + if tokens@.len() - 1 < free {
                    tokens@.len() - 1
                } else {
                    free
                } <= i32::MAX,
            ensures
                self.wf(),
                added == if tokens@.len() < free {
                    tokens@.len() as int
                } else {
                    free
                },
                self.view() == v0 + token_entries(tokens@, start_pos as int, seq_id, added as int),
                self.spec_capacity() == old(self).spec_capacity(),
                self.spec_n_seq_max() == old(self).spec_n_seq_max(),
            decreases tokens@.len() - i,
        {
            let pos = start_pos + i as i32;
            let is_last = i == tokens.len() - 1;
            let ghost before = self.view();
            if !self.add_token(tokens[i], pos, seq_id, is_last) {
                break;
            }
            proof {
                assert(self.view() =~= v0 + token_entries(
                    tokens@,
                    start_pos as int,
                    seq_id,
                    added + 1,
                ));
            }
            added = added + 1;
            i = i + 1;
        }
        added
    }

    /// Current number of tokens in the batch.
    pub fn len(&self) -> (r: i32)
        requires
            self.wf(),
        ensures
            r == self.view().len(),
            r == 0 || r <= self.spec_capacity(),
    {
        self.len
    }

    /// Whether the batch is empty.
    pub fn is_empty(&self) -> (r: bool)
        requires
            self.wf(),
        ensures
            r == (self.view().len() == 0),
    {
        self.len == 0
    }

    /// Maximum capacity.
    pub fn capacity(&self) -> (r: i32)
        ensures
            r == self.spec_capacity(),
    {
        self.capacity
    }

    /// Remaining capacity.
    pub fn remaining(&self) -> (r: i32)
        requires
            self.wf(),
        ensures
            r == self.spec_capacity() - self.view().len(),
    {
        self.capacity - self.len
    }

    /// Maximum number of sequences.
    pub fn n_seq_max(&self) -> (r: i32)
        ensures
            r == self.spec_n_seq_max(),
    {
        self.n_seq_max
    }

    /// The tokens in the batch, from which the native batch is built.
    pub fn entries(&self) -> (r: &Vec<BatchToken>)
        ensures
            r@ == self.view(),
    {
        &self.entries
    }
}

} // verus!
