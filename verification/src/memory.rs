//! Memory tracking and budget management.

use vstd::prelude::*;
use crate::error::ForgeError;

verus! {

/// Number of bytes in one mebibyte.
pub const BYTES_PER_MB: usize = 1048576;

/// The value a `usize` counter holds after subtracting `b` from `a` with
/// wrap-around, as an atomic `fetch_sub` does.
pub open spec fn wrapping_sub_usize(a: nat, b: nat) -> nat {
    if b <= a {
        (a - b) as nat
    } else {
        (a - b + usize::MAX + 1) as nat
    }
}

/// Whether `current` bytes in use respect a budget of `budget` bytes
/// (a budget of zero means unlimited).
pub open spec fn within_budget(budget: nat, current: nat) -> bool {
    budget == 0 || current <= budget
}

/// Tracks memory usage and enforces budgets.
#[derive(Debug)]
pub struct MemoryTracker {
    /// Current allocated bytes
    current_bytes: usize,
    /// Peak allocated bytes
    peak_bytes: usize,
    /// Maximum allowed bytes (0 = unlimited)
    budget_bytes: usize,
}

impl MemoryTracker {
    /// Bytes currently recorded as allocated.
    pub closed spec fn current(&self) -> nat {
        self.current_bytes as nat
    }

    /// Highest value `current` has reached since creation or the last reset.
    pub closed spec fn peak(&self) -> nat {
        self.peak_bytes as nat
    }

    /// Budget in bytes (0 = unlimited).
    pub closed spec fn budget(&self) -> nat {
        self.budget_bytes as nat
    }

    /// Create a new memory tracker with optional budget (in MB).
    pub fn new(budget_mb: Option<usize>) -> (r: Self)
        requires
            budget_mb matches Some(mb) ==> mb * BYTES_PER_MB <= usize::MAX,
        ensures
            r.current() == 0,
            r.peak() == 0,
            r.budget() == match budget_mb {
                Some(mb) => mb * BYTES_PER_MB,
                None => 0,
            },
    {
        let mb: usize = match budget_mb {
            Some(mb) => mb,
            None => 0,
        };
        MemoryTracker { current_bytes: 0, peak_bytes: 0, budget_bytes: mb * BYTES_PER_MB }
    }

    /// Record an allocation.
    ///
    /// The bytes are recorded even when they exceed the budget; the result
    /// is `false` exactly when the new total is over a non-zero budget.
    pub fn record_alloc(&mut self, bytes: usize) -> (r: bool)
        requires
            old(self).current() + bytes <= usize::MAX,
        ensures
            final(self).current() == old(self).current() + bytes,
            final(self).peak() == if old(self).peak() < final(self).current() {
                final(self).current()
            } else {
                old(self).peak()
            },
            final(self).budget() == old(self).budget(),
            r == within_budget(old(self).budget(), final(self).current()),
    {
        let new_current = self.current_bytes + bytes;
        self.current_bytes = new_current;
        if new_current > self.peak_bytes {
            self.peak_bytes = new_current;
        }
        if self.budget_bytes > 0 && new_current > self.budget_bytes {
            return false;
        }
        true
    }

    /// Record a deallocation (the counter wraps around, as the atomic
    /// subtraction does).
    pub fn dealloc(&mut self, bytes: usize)
        ensures
            final(self).current() == wrapping_sub_usize(old(self).current(), bytes as nat),
            final(self).peak() == old(self).peak(),
            final(self).budget() == old(self).budget(),
    {
        self.current_bytes = self.current_bytes.wrapping_sub(bytes);
    }

    /// Check if an allocation would fit within budget.
    pub fn would_fit(&self, bytes: usize) -> (r: bool)
        requires
            self.budget() == 0 || self.current() + bytes <= usize::MAX,
        ensures
            r == within_budget(self.budget(), self.current() + bytes as nat),
    {
        if self.budget_bytes == 0 {
            return true;
        }
        self.current_bytes + bytes <= self.budget_bytes
    }

    /// Reset tracking (does not actually free memory).
    pub fn reset(&mut self)
        ensures
            final(self).current() == 0,
            final(self).peak() == 0,
            final(self).budget() == old(self).budget(),
    {
        self.current_bytes = 0;
        self.peak_bytes = 0;
    }

    /// Bytes currently recorded as allocated.
    pub fn current_bytes(&self) -> (r: usize)
        ensures
            r == self.current(),
    {
        self.current_bytes
    }

    /// Peak recorded bytes.
    pub fn peak_bytes(&self) -> (r: usize)
        ensures
            r == self.peak(),
    {
        self.peak_bytes
    }

    /// Budget in bytes (0 = unlimited).
    pub fn budget_bytes(&self) -> (r: usize)
        ensures
            r == self.budget(),
    {
        self.budget_bytes
    }

    /// Bytes left in the budget: none when the budget is unlimited or
    /// already used up.
    pub fn remaining_bytes(&self) -> (r: usize)
        ensures
            r == if self.budget() == 0 || self.current() >= self.budget() {
                0
            } else {
                self.budget() - self.current()
            },
    {
        if self.budget_bytes == 0 || self.current_bytes >= self.budget_bytes {
            0
        } else {
            self.budget_bytes - self.current_bytes
        }
    }
}

impl Default for MemoryTracker {
    fn default() -> (r: Self)
        ensures
            r.current() == 0,
            r.peak() == 0,
            r.budget() == 0,
    {
        Self::new(None)
    }
}

/// Mebibytes needed to hold `bytes`, rounded up.
pub open spec fn mb_ceil(bytes: nat) -> nat {
    ((bytes + BYTES_PER_MB - 1) / (BYTES_PER_MB as int)) as nat
}

/// Record `bytes` of weights against the tracker; fails with
/// `MemoryBudgetExceeded` when the new total is over the budget (the bytes
/// stay recorded, as with `record_alloc`).
pub fn reserve_budget(memory: &mut MemoryTracker, bytes: usize, budget_mb: usize) -> (r: Result<
    (),
    ForgeError,
>)
    requires
        old(memory).current() + bytes <= usize::MAX,
    ensures
        final(memory).current() == old(memory).current() + bytes,
        final(memory).budget() == old(memory).budget(),
        final(memory).peak() == if old(memory).peak() < final(memory).current() {
            final(memory).current()
        } else {
            old(memory).peak()
        },
        r is Ok <==> within_budget(old(memory).budget(), final(memory).current()),
        r matches Err(e) ==> e == (ForgeError::MemoryBudgetExceeded {
            requested_mb: mb_ceil(bytes as nat) as usize,
            available_mb: budget_mb,
        }),
{
    if !memory.record_alloc(bytes) {
        let whole = bytes / BYTES_PER_MB;
        let requested_mb = if bytes % BYTES_PER_MB == 0 {
            whole
        } else {
            whole + 1
        };
        assert(requested_mb == mb_ceil(bytes as nat)) by (nonlinear_arith)
            requires
                whole == bytes / BYTES_PER_MB,
                requested_mb == if bytes % BYTES_PER_MB == 0 {
                    whole as int
                } else {
                    whole + 1
                },
        ;
        return Err(ForgeError::MemoryBudgetExceeded { requested_mb, available_mb: budget_mb });
    }
    Ok(())
}

/// Law: recording a deallocation undoes recording an allocation of the same
/// size, while the peak keeps the higher total.
pub proof fn lemma_dealloc_undoes_alloc(current: nat, peak: nat, bytes: nat)
    requires
        current + bytes <= usize::MAX,
    ensures
        wrapping_sub_usize(current + bytes, bytes) == current,
        (if peak < current + bytes {
            current + bytes
        } else {
            peak
        }) >= current + bytes,
{
}

/// Law: `would_fit` predicts `record_alloc`: asking whether `bytes` fit and
/// then recording them, the allocation is within budget exactly when the
/// question was answered yes (both are `within_budget` of the new total).
pub proof fn lemma_would_fit_predicts_alloc(budget: nat, current: nat, bytes: nat)
    ensures
        within_budget(budget, current + bytes) == (budget == 0 || current + bytes <= budget),
        budget == 0 ==> within_budget(budget, current + bytes),
{
}

/// The largest value in `s` (0 for an empty sequence).
pub open spec fn seq_max(s: Seq<nat>) -> nat
    decreases s.len(),
{
    if s.len() == 0 {
        0
    } else if seq_max(s.drop_last()) < s.last() {
        s.last()
    } else {
        seq_max(s.drop_last())
    }
}

/// Law: the peak is the largest total reached since creation or the last
/// reset. Let `history` be the totals the tracker has held since then
/// (starting with the 0 that `new` and `reset` leave), its last element
/// the current total, and `peak` their maximum. Then the peak is at least
/// the current total; the peak that `record_alloc` leaves is the maximum of
/// the history extended by the new total; a `dealloc` of at most the
/// current total keeps the peak, which is again the maximum of the
/// extended history; and `new` and `reset` start a history whose maximum
/// is their peak of 0.
pub proof fn lemma_peak_is_running_max(history: Seq<nat>, peak: nat, bytes: nat)
    requires
        history.len() > 0,
        peak == seq_max(history),
    ensures
        peak >= history.last(),
        (if peak < history.last() + bytes {
            history.last() + bytes
        } else {
            peak
        }) == seq_max(history.push(history.last() + bytes)),
        bytes <= history.last() ==> peak == seq_max(
            history.push((history.last() - bytes) as nat),
        ),
        seq_max(seq![0nat]) == 0,
{
    let c = history.last();
    assert(history.push(c + bytes).drop_last() =~= history);
    if bytes <= c {
        assert(history.push((c - bytes) as nat).drop_last() =~= history);
    }
    assert(seq![0nat].drop_last() =~= Seq::<nat>::empty());
    assert(seq_max(Seq::<nat>::empty()) == 0);
    assert(seq![0nat].last() == 0);
}

} // verus!
