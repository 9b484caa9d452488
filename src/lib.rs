//! A partition runtime in the style of ARINC 653: the decisions of process
//! supervision, sampling ports, the operating-mode state machine and the
//! time and error services, kept apart from the operating-system calls that
//! carry them out.

pub mod error;
pub mod mode;
pub mod netif;
pub mod pidwait;
pub mod process;
pub mod report;
pub mod sampling;
pub mod status;
pub mod time;
