use vstd::prelude::*;

use crate::mode::OperatingMode;
use crate::time::{clamp_time, get_time};

verus! {

/// Why the partition was last started.
#[derive(Debug, Clone, Copy, PartialEq, Eq, Structural)]
pub enum StartCondition {
    NormalStart,
    PartitionRestart,
    HmModuleRestart,
    HmPartitionRestart,
}

/// The fixed parameters of a partition; `period` and `duration` are in
/// nanoseconds.
#[derive(Debug, Clone, Copy)]
pub struct PartitionConstants {
    pub period: u64,
    pub duration: u64,
    pub identifier: i64,
    pub start_condition: StartCondition,
}

/// The status of a partition as the application sees it.
#[derive(Debug, Clone, Copy, PartialEq, Eq, Structural)]
pub struct PartitionStatus {
    pub period: i64,
    pub duration: i64,
    pub identifier: i64,
    pub lock_level: i64,
    pub operating_mode: OperatingMode,
    pub start_condition: StartCondition,
    pub num_assigned_cores: i64,
}

/// The status of a partition with these constants in the mode `mode`; it
/// runs on one core and never holds the preemption lock.
pub fn get_partition_status(constants: &PartitionConstants, mode: OperatingMode) -> (r:
    PartitionStatus)
    ensures
        r == (PartitionStatus {
            period: clamp_time(constants.period as u128),
            duration: clamp_time(constants.duration as u128),
            identifier: constants.identifier,
            lock_level: 0,
            operating_mode: mode,
            start_condition: constants.start_condition,
            num_assigned_cores: 1,
        }),
{
    PartitionStatus {
        period: get_time(constants.period as u128),
        duration: get_time(constants.duration as u128),
        identifier: constants.identifier,
        lock_level: 0,
        operating_mode: mode,
        start_condition: constants.start_condition,
        num_assigned_cores: 1,
    }
}

} // verus!
