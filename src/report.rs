use vstd::prelude::*;
use vstd::utf8::{decode_utf8, valid_utf8};

use crate::error::{ApexError, ErrorReturnCode, SystemError, TypedError};

verus! {

/// The largest application message that can be reported, in bytes.
pub const MAX_ERROR_MESSAGE_SIZE: usize = 128;

/// The error codes that an application may raise.
#[derive(Debug, Clone, Copy, PartialEq, Eq, Structural)]
pub enum ErrorCode {
    DeadlineMissed,
    ApplicationError,
    NumericError,
    IllegalRequest,
    StackOverflow,
    MemoryViolation,
    HardwareFault,
    PowerFail,
}

/// Relies on std::str::from_utf8: it accepts exactly the bytes that are
/// valid UTF-8, and then yields the text they encode.
#[verifier::external_body]
fn text_of_utf8(bytes: &[u8]) -> (r: Option<String>)
    ensures
        r is Some <==> valid_utf8(bytes@),
        r matches Some(s) ==> s@ == decode_utf8(bytes@),
{
    match std::str::from_utf8(bytes) {
        Ok(s) => Some(s.to_owned()),
        Err(_) => None,
    }
}

/// What an application message is forwarded as: its text where it is valid
/// UTF-8, nothing otherwise.
pub open spec fn forwarded(message: Seq<u8>) -> Option<Seq<char>> {
    if valid_utf8(message) {
        Some(decode_utf8(message))
    } else {
        None
    }
}

pub open spec fn text_view(t: Option<String>) -> Option<Seq<char>> {
    match t {
        Some(s) => Some(s@),
        None => None,
    }
}

/// Checks an application message for the supervisor and answers the text to
/// send to it: a message over the maximum size is an invalid parameter; one
/// that is not UTF-8 is accepted and dropped, so that nothing is sent.
pub fn report_application_message(message: &[u8]) -> (r: Result<Option<String>, ErrorReturnCode>)
    ensures
        message@.len() > MAX_ERROR_MESSAGE_SIZE ==> r == Err::<Option<String>, ErrorReturnCode>(
            ErrorReturnCode::InvalidParam,
        ),
        message@.len() <= MAX_ERROR_MESSAGE_SIZE ==> (r matches Ok(t) && text_view(t) == forwarded(
            message@,
        )),
{
    if message.len() > MAX_ERROR_MESSAGE_SIZE {
        return Err(ErrorReturnCode::InvalidParam);
    }
    Ok(text_of_utf8(message))
}

/// What raising an application error does: the text to send to the
/// supervisor first, if any, and then the error that ends or answers the call.
#[derive(Debug)]
pub struct RaisedError {
    pub report: Option<String>,
    pub error: ApexError,
}

/// Decides an error raised by the application. Any code but the
/// application-error code is refused with an invalid parameter and nothing
/// is sent. The application-error code is always fatal: a message over the
/// maximum size cannot be reported, so nothing is sent and the failed report
/// is the fatal error; otherwise the message is reported as by
/// `report_application_message` and the fatal application error follows.
pub fn raise_application_error(code: ErrorCode, message: &[u8]) -> (r: RaisedError)
    ensures
        code != ErrorCode::ApplicationError ==> (r.report is None && r.error matches ApexError::Rejected(
            ErrorReturnCode::InvalidParam,
        )),
        code == ErrorCode::ApplicationError && message@.len() > MAX_ERROR_MESSAGE_SIZE ==> (
        r.report is None && (r.error matches ApexError::Fatal(e) && e.kind == SystemError::Panic)),
        code == ErrorCode::ApplicationError && message@.len() <= MAX_ERROR_MESSAGE_SIZE ==> (
        text_view(r.report) == forwarded(message@) && (r.error matches ApexError::Fatal(e) && e.kind
            == SystemError::ApplicationError)),
{
    if code != ErrorCode::ApplicationError {
        return RaisedError { report: None, error: ApexError::Rejected(ErrorReturnCode::InvalidParam) };
    }
    match report_application_message(message) {
        Err(_) => RaisedError {
            report: None,
            error: ApexError::Fatal(
                TypedError::new(
                    SystemError::Panic,
                    "application error message exceeds the maximum size".to_owned(),
                ),
            ),
        },
        Ok(text) => RaisedError {
            report: text,
            error: ApexError::Fatal(
                TypedError::new(SystemError::ApplicationError, "application error".to_owned()),
            ),
        },
    }
}

} // verus!
