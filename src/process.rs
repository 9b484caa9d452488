use vstd::prelude::*;

use crate::error::{ApexError, ErrorReturnCode, SystemError, TypedError};

verus! {

/// The id of the aperiodic process of a partition.
pub const APERIODIC_ID: i64 = 1;

/// The id of the periodic process of a partition.
pub const PERIODIC_ID: i64 = 2;

/// Whether missing a deadline is tolerated.
#[derive(Debug, Clone, Copy, PartialEq, Eq, Structural)]
pub enum Deadline {
    Soft,
    Hard,
}

/// The attributes of a process: `period` and `time_capacity` are in
/// nanoseconds, `None` standing for infinite. A process with an infinite
/// period is aperiodic.
#[derive(Debug, Clone)]
pub struct ProcessAttribute {
    pub name: String,
    pub period: Option<u64>,
    pub time_capacity: Option<u64>,
    pub stack_size: u32,
    pub base_priority: i32,
    pub deadline: Deadline,
}

/// A member process: its attributes and whether it was started.
#[derive(Debug, Clone)]
pub struct ProcessEntry {
    pub attr: ProcessAttribute,
    pub started: bool,
}

impl ProcessEntry {
    pub open spec fn periodic(&self) -> bool {
        self.attr.period is Some
    }
}

/// The two process slots of a partition: one aperiodic process and one
/// periodic one.
#[derive(Debug)]
pub struct ProcessTable {
    pub aperiodic: Option<ProcessEntry>,
    pub periodic: Option<ProcessEntry>,
}

/// The id of the slot that a process with these attributes goes to.
pub open spec fn slot_of(attr: ProcessAttribute) -> i64 {
    if attr.period is Some {
        PERIODIC_ID
    } else {
        APERIODIC_ID
    }
}

impl ProcessTable {
    /// The process with id `id`, if there is one.
    pub open spec fn slot(&self, id: i64) -> Option<ProcessEntry> {
        if id == APERIODIC_ID {
            self.aperiodic
        } else if id == PERIODIC_ID {
            self.periodic
        } else {
            None
        }
    }

    /// The table of a partition that has no process yet.
    pub fn new() -> (r: ProcessTable)
        ensures
            r.aperiodic is None,
            r.periodic is None,
    {
        ProcessTable { aperiodic: None, periodic: None }
    }

    /// Creates a process with the attributes `attr` in its slot and answers
    /// its id; fails where that slot is taken.
    pub fn create_process(&mut self, attr: ProcessAttribute) -> (r: Result<i64, ErrorReturnCode>)
        ensures
            old(self).slot(slot_of(attr)) is Some ==> r == Err::<i64, ErrorReturnCode>(
                ErrorReturnCode::InvalidConfig,
            ) && *final(self) == *old(self),
            old(self).slot(slot_of(attr)) is None ==> r == Ok::<i64, ErrorReturnCode>(
                slot_of(attr),
            ) && final(self).slot(slot_of(attr)) == Some(ProcessEntry { attr, started: false })
                && final(self).slot((3 - slot_of(attr)) as i64) == old(self).slot((3 - slot_of(attr)) as i64),
    {
        if attr.period.is_some() {
            if self.periodic.is_some() {
                return Err(ErrorReturnCode::InvalidConfig);
            }
            self.periodic = Some(ProcessEntry { attr, started: false });
            Ok(PERIODIC_ID)
        } else {
            if self.aperiodic.is_some() {
                return Err(ErrorReturnCode::InvalidConfig);
            }
            self.aperiodic = Some(ProcessEntry { attr, started: false });
            Ok(APERIODIC_ID)
        }
    }

    /// Marks the process `process_id` as running. An unknown id is an invalid
    /// parameter; a process that was started already cannot start again.
    pub fn start(&mut self, process_id: i64) -> (r: Result<(), ErrorReturnCode>)
        ensures
            old(self).slot(process_id) is None ==> r == Err::<(), ErrorReturnCode>(
                ErrorReturnCode::InvalidParam,
            ),
            (old(self).slot(process_id) matches Some(p) && p.started) ==> r == Err::<
                (),
                ErrorReturnCode,
            >(ErrorReturnCode::NoAction),
            (old(self).slot(process_id) matches Some(p) && !p.started) ==> r is Ok,
            r is Err ==> *final(self) == *old(self),
            r is Ok ==> (old(self).slot(process_id) matches Some(p) && !p.started
                && final(self).slot(process_id) == Some(ProcessEntry { attr: p.attr, started: true })),
            r is Ok ==> final(self).slot((3 - process_id) as i64) == old(self).slot((3 - process_id) as i64),
    {
        if process_id == APERIODIC_ID {
            match &mut self.aperiodic {
                None => Err(ErrorReturnCode::InvalidParam),
                Some(p) => {
                    if p.started {
                        Err(ErrorReturnCode::NoAction)
                    } else {
                        p.started = true;
                        Ok(())
                    }
                },
            }
        } else if process_id == PERIODIC_ID {
            match &mut self.periodic {
                None => Err(ErrorReturnCode::InvalidParam),
                Some(p) => {
                    if p.started {
                        Err(ErrorReturnCode::NoAction)
                    } else {
                        p.started = true;
                        Ok(())
                    }
                },
            }
        } else {
            Err(ErrorReturnCode::InvalidParam)
        }
    }

    /// Decides a periodic wait asked for by the process `caller`: the
    /// periodic process gets the id of its own group to freeze; the
    /// aperiodic one is refused with an invalid mode; a caller without a
    /// process is a fatal error.
    pub fn periodic_wait(&self, caller: i64) -> (r: Result<i64, ApexError>)
        ensures
            self.slot(caller) is None ==> (r matches Err(ApexError::Fatal(e)) && e.kind
                == SystemError::Panic),
            (self.slot(caller) matches Some(p) && !p.periodic()) ==> (r matches Err(
                ApexError::Rejected(ErrorReturnCode::InvalidMode),
            )),
            (self.slot(caller) matches Some(p) && p.periodic()) ==> r == Ok::<i64, ApexError>(
                caller,
            ),
    {
        let entry = if caller == APERIODIC_ID {
            &self.aperiodic
        } else if caller == PERIODIC_ID {
            &self.periodic
        } else {
            &None
        };
        match entry {
            None => Err(
                ApexError::Fatal(
                    TypedError::new(SystemError::Panic, "no process for the caller".to_owned()),
                ),
            ),
            Some(p) => {
                if p.attr.period.is_some() {
                    Ok(caller)
                } else {
                    Err(ApexError::Rejected(ErrorReturnCode::InvalidMode))
                }
            },
        }
    }
}

} // verus!
