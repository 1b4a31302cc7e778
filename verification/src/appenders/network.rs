//! What the network sink does when a send fails.

use vstd::prelude::*;
use vstd::string::StringExecFns;
use crate::error::LoggerError;

verus! {

/// What the network sink does after a send failed.
#[derive(Debug, Clone, Copy, PartialEq, Eq, Structural)]
pub enum SendRecovery {
    /// Connect again and send the line once more.
    Reconnect,
    /// Report the failure of the send.
    Fail,
}

/// What the network sink does after a send failed: it connects again where
/// it is set up to, and reports the failure otherwise. Either way the
/// connection counts as lost.
pub fn after_failed_send(reconnect_on_error: bool) -> (r: SendRecovery)
    ensures
        r == (if reconnect_on_error {
            SendRecovery::Reconnect
        } else {
            SendRecovery::Fail
        }),
{
    if reconnect_on_error {
        SendRecovery::Reconnect
    } else {
        SendRecovery::Fail
    }
}

/// The message of the error for a send that failed and a reconnect that
/// failed after it.
pub open spec fn reconnect_failure_text(send_error: Seq<char>, reconnect_error: Seq<char>) -> Seq<
    char,
> {
    "Failed to send log and reconnect: "@ + send_error + " (reconnect: "@ + reconnect_error
        + ")"@
}

/// The error for a send that failed and a reconnect that failed after it.
pub fn reconnect_failure(send_error: &str, reconnect_error: &str) -> (r: LoggerError)
    ensures
        r matches LoggerError::WriterError(m) && m@ == reconnect_failure_text(
            send_error@,
            reconnect_error@,
        ),
{
    let mut message = "Failed to send log and reconnect: ".to_owned();
    message.append(send_error);
    message.append(" (reconnect: ");
    message.append(reconnect_error);
    message.append(")");
    LoggerError::WriterError(message)
}

/// The error of a sink that has no connection.
pub fn not_connected() -> (r: LoggerError)
    ensures
        r matches LoggerError::WriterError(m) && m@ == "Network stream not connected"@,
{
    LoggerError::writer("Network stream not connected")
}

} // verus!
