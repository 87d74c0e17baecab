//! The scaler's decisions: when a scale request is satisfied, when it has
//! run out of time, and what each failure is.
use vstd::prelude::*;

verus! {

/// Why a scale request failed.
#[derive(Debug, Clone, Copy, PartialEq, Eq, Structural)]
pub enum ScaleError {
    /// The orchestrator refused the replica patch.
    Patch,
    /// Not enough replicas were ready before the deadline.
    Timeout,
    /// The orchestrator could not be reached.
    Transport,
    /// The workload reported no status.
    NoStatus,
}

/// What one status check tells the poll loop.
#[derive(Debug, Clone, Copy, PartialEq, Eq, Structural)]
pub enum PollOutcome {
    /// Enough replicas are ready: the request succeeded.
    Ready,
    /// Not yet: check again after the poll period.
    Pending,
    /// The request failed.
    Failed(ScaleError),
}

/// The ready replica count that a status reports; an absent count is zero.
pub open spec fn ready_count(ready_replicas: Option<i32>) -> int {
    match ready_replicas {
        Some(n) => n as int,
        None => 0,
    }
}

/// The outcome of a status check made `elapsed_ms` after the patch for
/// `target` replicas was accepted. `status` is `None` when the workload
/// reported no status, else the ready replica count it reported.
pub open spec fn poll_spec(
    target: i32,
    status: Option<Option<i32>>,
    elapsed_ms: u128,
    deadline_ms: u128,
) -> PollOutcome {
    if target <= 0 {
        PollOutcome::Ready
    } else {
        match status {
            None => PollOutcome::Failed(ScaleError::NoStatus),
            Some(r) => if ready_count(r) >= target {
                PollOutcome::Ready
            } else if elapsed_ms >= deadline_ms {
                PollOutcome::Failed(ScaleError::Timeout)
            } else {
                PollOutcome::Pending
            },
        }
    }
}

/// Whether a scale request needs status checks at all: scaling to zero is
/// done once the patch is accepted.
pub fn needs_poll(target: i32) -> (r: bool)
    ensures
        r == (target > 0),
{
    target > 0
}

/// Judges one status check of the poll loop.
pub fn poll(target: i32, status: Option<Option<i32>>, elapsed_ms: u128, deadline_ms: u128) -> (r:
    PollOutcome)
    ensures
        r == poll_spec(target, status, elapsed_ms, deadline_ms),
{
    if target <= 0 {
        return PollOutcome::Ready;
    }
    match status {
        None => PollOutcome::Failed(ScaleError::NoStatus),
        Some(r) => {
            let ready: i32 = match r {
                Some(n) => n,
                None => 0,
            };
            if ready >= target {
                PollOutcome::Ready
            } else if elapsed_ms >= deadline_ms {
                PollOutcome::Failed(ScaleError::Timeout)
            } else {
                PollOutcome::Pending
            }
        },
    }
}

/// Scaling to a count that is already ready succeeds on the first status
/// check, whenever it is made: a repeated `scale(n)` waits for nothing and
/// patches the replica count to the value it already has.
pub proof fn lemma_repeat_scale_is_immediate(
    target: i32,
    ready_replicas: Option<i32>,
    elapsed_ms: u128,
    deadline_ms: u128,
)
    requires
        ready_count(ready_replicas) >= target,
    ensures
        poll_spec(target, Some(ready_replicas), elapsed_ms, deadline_ms) == PollOutcome::Ready,
{
}

} // verus!
