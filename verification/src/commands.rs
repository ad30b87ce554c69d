//! What the shell's commands answer to the user interface.
//!
//! The command `start` asks for a spawn and `shutdown` for a shutdown; each
//! answers with a text, which is an error text where the request failed.

use vstd::prelude::*;
use crate::supervisor::{Acknowledged, ShutdownError, SpawnError, SpawnOutcome};

verus! {

/// The answer of the command `start` to what a spawn request gave. A launch
/// that failed is answered with the host's own words for the failure.
pub open spec fn start_message(result: Result<SpawnOutcome, SpawnError>) -> Result<
    Seq<char>,
    Seq<char>,
> {
    match result {
        Ok(_) => Ok("Sidecar spawned and monitoring started."@),
        Err(SpawnError::LaunchFailed(reason)) => Err(reason@),
        Err(SpawnError::StateUnavailable) => Err("Failed to access app state"@),
    }
}

/// The answer of the command `shutdown` to what a shutdown request gave.
pub open spec fn shutdown_message(result: Result<Acknowledged, ShutdownError>) -> Result<
    Seq<char>,
    Seq<char>,
> {
    match result {
        Ok(_) => Ok("'sidecar shutdown' command sent."@),
        Err(ShutdownError::NotRunning) => Err("No active sidecar process to shutdown."@),
        Err(ShutdownError::WriteFailed(reason)) => Err(
            "Failed to write to sidecar stdin: "@ + reason@,
        ),
        Err(ShutdownError::StateUnavailable) => Err("Sidecar process state not found."@),
    }
}

/// The characters of an answer.
pub open spec fn reply_text(reply: Result<String, String>) -> Result<Seq<char>, Seq<char>> {
    match reply {
        Ok(text) => Ok(text@),
        Err(text) => Err(text@),
    }
}

/// Answers the command `start`.
pub fn start_reply(result: Result<SpawnOutcome, SpawnError>) -> (reply: Result<String, String>)
    ensures
        reply_text(reply) == start_message(result),
{
    match result {
        Ok(_) => Ok(String::from_str("Sidecar spawned and monitoring started.")),
        Err(SpawnError::LaunchFailed(reason)) => Err(reason),
        Err(SpawnError::StateUnavailable) => Err(String::from_str("Failed to access app state")),
    }
}

/// Answers the command `shutdown`.
pub fn shutdown_reply(result: Result<Acknowledged, ShutdownError>) -> (reply: Result<
    String,
    String,
>)
    ensures
        reply_text(reply) == shutdown_message(result),
{
    match result {
        Ok(_) => Ok(String::from_str("'sidecar shutdown' command sent.")),
        Err(ShutdownError::NotRunning) => Err(
            String::from_str("No active sidecar process to shutdown."),
        ),
        Err(ShutdownError::WriteFailed(reason)) => Err(
            String::from_str("Failed to write to sidecar stdin: ").concat(reason.as_str()),
        ),
        Err(ShutdownError::StateUnavailable) => Err(
            String::from_str("Sidecar process state not found."),
        ),
    }
}

} // verus!
