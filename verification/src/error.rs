//! The failure taxonomy surfaced to the host.

use vstd::prelude::*;

verus! {

/// Everything a solver call can report instead of succeeding.
///
/// Newton failures and error-test failures are recovered internally and never
/// escape `step`; what remains here is either fatal for the integration
/// (a step size below the minimum), fatal for the single call (a stop time
/// or interpolation time on the wrong side of the current state), or a
/// construction-time consistency failure.
#[derive(Clone, Copy, Debug, PartialEq, Eq, Structural)]
pub enum DiffsolError {
    /// The step size fell below the minimum while retrying a step.
    StepSizeTooSmall,
    /// `set_stop_time` named a time strictly behind the current time in the
    /// direction of integration.
    StopTimeBeforeCurrentTime,
    /// Interpolation was asked outside the last accepted step while the
    /// state had been replaced by hand.
    InterpolationTimeOutsideCurrentStep,
    /// Interpolation was asked beyond the current time in the direction of
    /// integration.
    InterpolationTimeAfterCurrentTime,
    /// A Newton solve on a sensitivity column failed.
    SensitivitySolveFailed,
    /// The shared equations bundle could not be borrowed exclusively.
    FailedToGetMutableReference,
    /// The injected linear solver reported a singular factorization.
    LinearSolveFailure,
    /// Newton hit its iteration limit or diverged.
    NewtonDidNotConverge,
    /// A state was handed to a solver whose shapes do not match the problem.
    InconsistentState,
}

} // verus!
