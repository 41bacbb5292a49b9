//! Decisions of the host capability provider: which callbacks are served,
//! which are refused with the fixed "not supported" code, and how file I/O
//! failures are reported to the agent. The file reads and writes themselves
//! are the surrounding program's; their outcomes are passed in.

use vstd::prelude::*;
use crate::errors::AcpError;

verus! {

/// The terminal-related callbacks the protocol mandates. The host supports
/// none of them.
#[derive(Clone, Copy, PartialEq, Eq, Structural, Debug)]
pub enum TerminalOp {
    Create,
    Output,
    Release,
    WaitForExit,
    Kill,
}

/// Every terminal-related callback fails with the fixed "not supported"
/// code and message, regardless of which operation was asked for.
pub fn terminal_callback_reply(op: TerminalOp) -> (r: Result<(), AcpError>)
    ensures
        r matches Err(e) && e.is_not_supported("Terminal functionality not supported"@),
{
    let _ = op;
    Err(AcpError::not_supported("Terminal functionality not supported"))
}

/// Permission requests always fail with the fixed "not supported" code.
pub fn request_permission_reply() -> (r: Result<(), AcpError>)
    ensures
        r matches Err(e) && e.is_not_supported("Permission requests not supported"@),
{
    Err(AcpError::not_supported("Permission requests not supported"))
}

/// Extension method requests always fail with the fixed "not supported"
/// code.
pub fn ext_method_reply() -> (r: Result<(), AcpError>)
    ensures
        r matches Err(e) && e.is_not_supported("Extension methods not supported"@),
{
    Err(AcpError::not_supported("Extension methods not supported"))
}

/// Extension notifications are acknowledged as no-ops.
pub fn ext_notification_reply() -> (r: Result<(), AcpError>)
    ensures
        r == Ok::<(), AcpError>(()),
{
    Ok(())
}

/// Forwarding a notification onto the worker's channel is best-effort and
/// never fails, even when the receiving end is gone.
pub fn session_notification_reply() -> (r: Result<(), AcpError>)
    ensures
        r == Ok::<(), AcpError>(()),
{
    Ok(())
}

/// Answer for a file read: the content when the read succeeded, and an
/// internal-error code naming the failure otherwise.
pub fn read_text_file_reply(read: Result<String, String>) -> (r: Result<String, AcpError>)
    ensures
        match read {
            Ok(content) => r == Ok::<String, AcpError>(content),
            Err(detail) => r matches Err(e) && e.is_internal("File read error: "@ + detail@),
        },
{
    match read {
        Ok(content) => Ok(content),
        Err(detail) => Err(AcpError::internal_with_detail("File read error: ", detail.as_str())),
    }
}

/// Answer for a file write: success when the write succeeded, and an
/// internal-error code naming the failure otherwise. Failures creating
/// parent directories are swallowed before this point, not reported.
pub fn write_text_file_reply(write: Result<(), String>) -> (r: Result<(), AcpError>)
    ensures
        match write {
            Ok(u) => r == Ok::<(), AcpError>(u),
            Err(detail) => r matches Err(e) && e.is_internal("File write error: "@ + detail@),
        },
{
    match write {
        Ok(u) => Ok(u),
        Err(detail) => Err(AcpError::internal_with_detail("File write error: ", detail.as_str())),
    }
}

} // verus!
