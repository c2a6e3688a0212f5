//! Reference counting of the process-wide inference backend.
//!
//! Every engine holds one reference to the backend. The backend is
//! initialized when the first reference is taken and freed when the last
//! one is released; a release without a matching acquisition is reported
//! and changes nothing.

use vstd::prelude::*;

verus! {

/// What a release of a backend reference calls for.
#[derive(PartialEq, Eq, Structural, Debug, Clone, Copy)]
pub enum ReleaseOutcome {
    /// There was no reference to release (a cleanup without matching init).
    Unmatched,
    /// Other references remain; the backend stays up.
    StillInUse,
    /// That was the last reference: the backend must be freed now.
    FreeBackend,
}

/// The outcome of releasing a reference when `count` references are held.
pub open spec fn release_outcome(count: nat) -> ReleaseOutcome {
    if count == 0 {
        ReleaseOutcome::Unmatched
    } else if count == 1 {
        ReleaseOutcome::FreeBackend
    } else {
        ReleaseOutcome::StillInUse
    }
}

/// The number of references held after a release from `count`.
pub open spec fn count_after_release(count: nat) -> nat {
    if count == 0 {
        0
    } else {
        (count - 1) as nat
    }
}

/// The backend reference counter.
#[derive(Debug)]
pub struct BackendRefCount {
    count: usize,
}

impl BackendRefCount {
    /// Number of references currently held.
    pub closed spec fn spec_count(&self) -> nat {
        self.count as nat
    }

    /// A counter with no references.
    pub fn new() -> (r: Self)
        ensures
            r.spec_count() == 0,
    {
        BackendRefCount { count: 0 }
    }

    /// Take a reference (the library's `init`); returns whether this is the
    /// first one, so that the backend must be initialized now.
    pub fn acquire(&mut self) -> (must_init: bool)
        requires
            old(self).spec_count() < usize::MAX,
        ensures
            must_init == (old(self).spec_count() == 0),
            final(self).spec_count() == old(self).spec_count() + 1,
    {
        let must_init = self.count == 0;
        self.count = self.count + 1;
        must_init
    }

    /// Release a reference (the library's `cleanup`).
    pub fn release(&mut self) -> (r: ReleaseOutcome)
        ensures
            r == release_outcome(old(self).spec_count()),
            final(self).spec_count() == count_after_release(old(self).spec_count()),
    {
        if self.count == 0 {
            return ReleaseOutcome::Unmatched;
        }
        self.count = self.count - 1;
        if self.count == 0 {
            ReleaseOutcome::FreeBackend
        } else {
            ReleaseOutcome::StillInUse
        }
    }

    /// Number of references currently held.
    pub fn count(&self) -> (r: usize)
        ensures
            r == self.spec_count(),
    {
        self.count
    }
}

/// Number of times the backend is freed over `releases` consecutive
/// releases, starting from `count` references.
pub open spec fn frees_after(count: nat, releases: nat) -> nat
    decreases releases,
{
    if releases == 0 {
        0
    } else {
        (if release_outcome(count) == ReleaseOutcome::FreeBackend {
            1nat
        } else {
            0nat
        }) + frees_after(count_after_release(count), (releases - 1) as nat)
    }
}

/// Law: a release undoes an acquisition; it frees the backend exactly when
/// the acquisition was the one that initialized it.
pub proof fn lemma_release_undoes_acquire(count: nat)
    ensures
        count_after_release(count + 1) == count,
        (release_outcome(count + 1) == ReleaseOutcome::FreeBackend) == (count == 0),
{
}

/// Law: starting from `count` references, `count + extra` releases free
/// the backend exactly once (the surplus releases are unmatched), so
/// balanced init and cleanup never free it twice.
pub proof fn lemma_balanced_release_frees_once(count: nat, extra: nat)
    requires
        count > 0,
    ensures
        frees_after(count, count + extra) == 1,
    decreases count,
{
    if count == 1 {
        lemma_unmatched_releases_free_nothing(extra);
        assert(count_after_release(1) == 0);
    } else {
        lemma_balanced_release_frees_once((count - 1) as nat, extra);
        assert((count + extra - 1) as nat == (count - 1) as nat + extra);
    }
}

/// Releases without any reference held never free the backend.
pub proof fn lemma_unmatched_releases_free_nothing(releases: nat)
    ensures
        frees_after(0, releases) == 0,
    decreases releases,
{
    if releases > 0 {
        lemma_unmatched_releases_free_nothing((releases - 1) as nat);
    }
}

} // verus!
