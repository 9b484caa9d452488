use vstd::prelude::*;

use crate::error::ErrorReturnCode;

verus! {

/// The operating mode of a partition.
#[derive(Debug, Clone, Copy, PartialEq, Eq, Structural)]
pub enum OperatingMode {
    Idle,
    ColdStart,
    WarmStart,
    Normal,
}

/// What the partition does on a request to change its operating mode.
#[derive(Debug, Clone, Copy, PartialEq, Eq, Structural)]
pub enum ModeDecision {
    /// The partition is idle: no transition can leave that mode, and the
    /// request is a fatal error.
    Fatal,
    /// The request is refused with this code and nothing else happens.
    Reject(ErrorReturnCode),
    /// The supervisor is told of the transition once; then the caller parks
    /// until the supervisor replaces it.
    NotifyAndPark(OperatingMode),
    /// The supervisor is told of the transition once; then the process ends.
    NotifyAndExit(OperatingMode),
}

/// The transition table of the operating modes.
pub open spec fn mode_decision(current: OperatingMode, requested: OperatingMode) -> ModeDecision {
    if current == OperatingMode::Idle {
        ModeDecision::Fatal
    } else if current == OperatingMode::Normal && requested == OperatingMode::Normal {
        ModeDecision::Reject(ErrorReturnCode::NoAction)
    } else if current == OperatingMode::ColdStart && requested == OperatingMode::WarmStart {
        ModeDecision::Reject(ErrorReturnCode::InvalidMode)
    } else if requested == OperatingMode::Normal {
        ModeDecision::NotifyAndPark(requested)
    } else {
        ModeDecision::NotifyAndExit(requested)
    }
}

/// The number of notifications to the supervisor that a decision sends.
pub open spec fn notifications(d: ModeDecision) -> nat {
    match d {
        ModeDecision::NotifyAndPark(_) | ModeDecision::NotifyAndExit(_) => 1,
        _ => 0,
    }
}

/// Decides what a request to move from `current` to `requested` does.
pub fn set_partition_mode(current: OperatingMode, requested: OperatingMode) -> (r: ModeDecision)
    ensures
        r == mode_decision(current, requested),
{
    match (current, requested) {
        (OperatingMode::Idle, _) => ModeDecision::Fatal,
        (OperatingMode::Normal, OperatingMode::Normal) => ModeDecision::Reject(
            ErrorReturnCode::NoAction,
        ),
        (OperatingMode::ColdStart, OperatingMode::WarmStart) => ModeDecision::Reject(
            ErrorReturnCode::InvalidMode,
        ),
        (_, OperatingMode::Normal) => ModeDecision::NotifyAndPark(requested),
        (_, _) => ModeDecision::NotifyAndExit(requested),
    }
}

/// A request made in the idle mode is fatal; from normal to normal is no
/// action; from cold start to warm start is an invalid mode; every other
/// request notifies the supervisor exactly once, and then parks the caller
/// when the target is normal and ends the process otherwise.
pub proof fn lemma_mode_transitions(current: OperatingMode, requested: OperatingMode)
    ensures
        current == OperatingMode::Idle ==> mode_decision(current, requested)
            == ModeDecision::Fatal,
        current == OperatingMode::Normal && requested == OperatingMode::Normal ==> mode_decision(
            current,
            requested,
        ) == ModeDecision::Reject(ErrorReturnCode::NoAction),
        current == OperatingMode::ColdStart && requested == OperatingMode::WarmStart
            ==> mode_decision(current, requested) == ModeDecision::Reject(
            ErrorReturnCode::InvalidMode,
        ),
        current != OperatingMode::Idle && !(current == OperatingMode::Normal && requested
            == OperatingMode::Normal) && !(current == OperatingMode::ColdStart && requested
            == OperatingMode::WarmStart) ==> {
            &&& notifications(mode_decision(current, requested)) == 1
            &&& requested == OperatingMode::Normal ==> mode_decision(current, requested)
                == ModeDecision::NotifyAndPark(requested)
            &&& requested != OperatingMode::Normal ==> mode_decision(current, requested)
                == ModeDecision::NotifyAndExit(requested)
        },
        notifications(mode_decision(current, requested)) <= 1,
{
}

} // verus!
