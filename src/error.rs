use vstd::prelude::*;

verus! {

/// The codes with which a request of the application is rejected.
/// None of them is a failure of the runtime itself.
#[derive(Debug, Clone, Copy, PartialEq, Eq, Structural)]
pub enum ErrorReturnCode {
    NoAction,
    NotAvailable,
    InvalidParam,
    InvalidConfig,
    InvalidMode,
    TimedOut,
}

/// The kinds of fatal error that end the partition process.
#[derive(Debug, Clone, Copy, PartialEq, Eq, Structural)]
pub enum SystemError {
    Panic,
    ApplicationError,
}

/// A fatal error: its kind, and a description of its cause.
#[derive(Debug, Clone)]
pub struct TypedError {
    pub kind: SystemError,
    pub cause: String,
}

impl TypedError {
    pub fn new(kind: SystemError, cause: String) -> (r: TypedError)
        ensures
            r.kind == kind,
            r.cause@ == cause@,
    {
        TypedError { kind, cause }
    }
}

/// The outcome of a bounded wait for a process to exit that is not success:
/// the wait ran out of time, which is an expected outcome, or it failed.
#[derive(Debug)]
pub enum PidWaitError {
    Timeout,
    Fatal(TypedError),
}

impl From<TypedError> for PidWaitError {
    fn from(e: TypedError) -> (r: PidWaitError)
        ensures
            r == PidWaitError::Fatal(e),
    {
        PidWaitError::Fatal(e)
    }
}

impl vstd::std_specs::convert::FromSpecImpl<TypedError> for PidWaitError {
    open spec fn obeys_from_spec() -> bool {
        true
    }

    open spec fn from_spec(e: TypedError) -> PidWaitError {
        PidWaitError::Fatal(e)
    }
}

/// The error of a runtime service: either fatal, which ends the partition
/// process, or a rejected request, which the application handles.
#[derive(Debug)]
pub enum ApexError {
    Fatal(TypedError),
    Rejected(ErrorReturnCode),
}

} // verus!
