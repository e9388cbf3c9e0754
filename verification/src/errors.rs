//! Error taxonomy of the recursion-tip stage.

use vstd::prelude::*;

verus! {

/// Why a pick, execute or save step could not finish its job.
///
/// `StoreUnavailable` is transient: the caller backs off and retries the
/// whole cycle. Every other variant is fatal for the affected batch and is
/// recorded against its job row; rescheduling is the external scheduler's
/// concern.
#[derive(Clone, Copy, Debug, PartialEq, Eq, Structural)]
pub enum StageError {
    /// The number of completed dependency jobs listed for a claimed batch
    /// differs from the count recorded when the job was scheduled.
    DependencyInconsistency { expected: usize, fetched: usize },
    /// More circuit types produced a recursion queue than the aggregate
    /// structure has slots for.
    ArityOverflow { populated: usize },
    /// The verification-parameter table did not hold exactly one entry per
    /// known base-layer circuit type.
    ParameterCardinalityMismatch { found: usize },
    /// The artifact store could not be reached.
    StoreUnavailable,
    /// The executor could not build the aggregate artifact.
    Compute,
}

impl StageError {
    /// A fatal error ends the affected job; a transient one only ends the
    /// current cycle.
    pub open spec fn is_fatal_spec(self) -> bool {
        !(self is StoreUnavailable)
    }

    pub fn is_fatal(&self) -> (r: bool)
        ensures
            r == self.is_fatal_spec(),
    {
        !(matches!(self, StageError::StoreUnavailable))
    }
}

/// A pick attempt that went wrong after (or while) claiming a job.
///
/// The claim itself is the one committed side effect of a pick, so the
/// failure names the batch whose row was claimed; the runner routes a
/// fatal error to the saver's failure path for that batch.
#[derive(Clone, Copy, Debug, PartialEq, Eq, Structural)]
pub struct PickError {
    pub batch_number: u32,
    pub error: StageError,
}

} // verus!
