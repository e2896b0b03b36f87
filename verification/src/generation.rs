//! Authority epochs and lifecycle generations: two distinct checked counters.
use vstd::prelude::*;

verus! {

/// Failures detected while preparing authority-bound lifecycle work.
#[derive(Debug, Clone, Copy, PartialEq, Eq)]
pub enum LifecyclePreparationError {
    AuthorityEpochExhausted,
    LifecycleGenerationExhausted,
    FinalPresentOrderMismatch { final_present: usize, admitted_order: usize },
    TeardownOrderMismatch { removed: usize, teardown_order: usize },
    UnbroadcastCapacity { attempted: usize, capacity: usize },
}

/// Identifies one incarnation of the sole managed-network authority.
#[derive(Debug, Clone, Copy, PartialEq, Eq, Structural, PartialOrd, Ord, Hash)]
pub struct AuthorityEpoch(pub u64);

impl AuthorityEpoch {
    /// The epoch of a freshly started authority.
    pub fn initial() -> (r: AuthorityEpoch)
        ensures
            r.0 == 1,
    {
        AuthorityEpoch(1)
    }

    /// The last epoch; it has no successor.
    pub fn max() -> (r: AuthorityEpoch)
        ensures
            r.0 == u64::MAX,
    {
        AuthorityEpoch(u64::MAX)
    }

    pub fn raw(self) -> (r: u64)
        ensures
            r == self.0,
    {
        self.0
    }

    /// The next epoch, or an exhaustion error at `u64::MAX`.
    pub fn checked_next(self) -> (r: Result<AuthorityEpoch, LifecyclePreparationError>)
        ensures
            self.0 < u64::MAX ==> r == Ok::<AuthorityEpoch, LifecyclePreparationError>(AuthorityEpoch((self.0 + 1) as u64)),
            self.0 == u64::MAX ==> r == Err::<AuthorityEpoch, LifecyclePreparationError>(LifecyclePreparationError::AuthorityEpochExhausted),
    {
        if self.0 < u64::MAX {
            Ok(AuthorityEpoch(self.0 + 1))
        } else {
            Err(LifecyclePreparationError::AuthorityEpochExhausted)
        }
    }
}

/// Identifies one committed, non-empty authoritative lifecycle transition.
#[derive(Debug, Clone, Copy, PartialEq, Eq, Structural, PartialOrd, Ord, Hash)]
pub struct LifecycleGeneration(pub u64);

impl LifecycleGeneration {
    /// The generation before any committed transition.
    pub fn initial() -> (r: LifecycleGeneration)
        ensures
            r.0 == 0,
    {
        LifecycleGeneration(0)
    }

    /// The last generation; it has no successor.
    pub fn max() -> (r: LifecycleGeneration)
        ensures
            r.0 == u64::MAX,
    {
        LifecycleGeneration(u64::MAX)
    }

    pub fn raw(self) -> (r: u64)
        ensures
            r == self.0,
    {
        self.0
    }

    /// The next generation, or an exhaustion error at `u64::MAX`.
    pub fn checked_next(self) -> (r: Result<LifecycleGeneration, LifecyclePreparationError>)
        ensures
            self.0 < u64::MAX ==> r == Ok::<LifecycleGeneration, LifecyclePreparationError>(LifecycleGeneration((self.0 + 1) as u64)),
            self.0 == u64::MAX ==> r == Err::<LifecycleGeneration, LifecyclePreparationError>(LifecyclePreparationError::LifecycleGenerationExhausted),
    {
        if self.0 < u64::MAX {
            Ok(LifecycleGeneration(self.0 + 1))
        } else {
            Err(LifecyclePreparationError::LifecycleGenerationExhausted)
        }
    }
}

} // verus!
