use vstd::prelude::*;

use crate::error::{PidWaitError, SystemError, TypedError};

verus! {

/// What one wait for the exit notification of a process descriptor gave.
#[derive(Debug, Clone)]
pub enum PollOutcome {
    /// The wait returned with this many ready events; none means the time
    /// budget ran out.
    Ready(usize),
    /// The wait was interrupted by a signal.
    Interrupted,
    /// The wait failed; the text describes why.
    Failed(String),
}

/// What a bounded wait for a process exit does after one wait.
#[derive(Debug)]
pub enum WaitStep {
    /// The wait is over, with this result.
    Done(Result<(), PidWaitError>),
    /// Re-arm the notification and wait again with the remaining budget.
    Retry,
}

/// The time budget left of `timeout` nanoseconds after `elapsed` of them.
pub open spec fn remaining(timeout: u64, elapsed: u64) -> u64 {
    if elapsed <= timeout {
        (timeout - elapsed) as u64
    } else {
        0
    }
}

/// The time budget of the next wait: what is left of the whole timeout,
/// measured from the start of the call, never the whole timeout again.
pub fn remaining_timeout(timeout: u64, elapsed: u64) -> (r: u64)
    ensures
        r == remaining(timeout, elapsed),
{
    timeout.saturating_sub(elapsed)
}

/// Decides what follows one wait: a ready descriptor means the process has
/// exited; no ready event means the budget ran out; an interruption means
/// waiting again; any other failure is fatal.
pub fn wait_step(outcome: PollOutcome) -> (r: WaitStep)
    ensures
        (outcome matches PollOutcome::Ready(n) && n > 0) ==> (r matches WaitStep::Done(Ok(()))),
        (outcome matches PollOutcome::Ready(n) && n == 0) ==> (r matches WaitStep::Done(
            Err(PidWaitError::Timeout),
        )),
        outcome is Interrupted ==> r is Retry,
        outcome matches PollOutcome::Failed(cause) ==> (r matches WaitStep::Done(
            Err(PidWaitError::Fatal(e)),
        ) && e.kind == SystemError::Panic && e.cause@ == cause@),
{
    match outcome {
        PollOutcome::Ready(n) => {
            if n == 0 {
                WaitStep::Done(Err(PidWaitError::Timeout))
            } else {
                WaitStep::Done(Ok(()))
            }
        },
        PollOutcome::Interrupted => WaitStep::Retry,
        PollOutcome::Failed(cause) => WaitStep::Done(
            Err(PidWaitError::Fatal(TypedError::new(SystemError::Panic, cause))),
        ),
    }
}

/// However often a wait is interrupted, the budgets of the waits never reach
/// past the timeout counted from the start of the call: each is the timeout
/// less the time already spent, it shrinks as time passes, and once the
/// timeout has elapsed it is zero.
pub proof fn lemma_wait_budget(timeout: u64, earlier: u64, later: u64)
    requires
        earlier <= later,
    ensures
        remaining(timeout, earlier) <= timeout,
        earlier <= timeout ==> earlier + remaining(timeout, earlier) == timeout,
        later >= timeout ==> remaining(timeout, later) == 0,
        remaining(timeout, later) <= remaining(timeout, earlier),
        later + remaining(timeout, later) >= timeout,
{
}

} // verus!
