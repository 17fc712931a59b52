//! Acknowledgements of the simple playback controls, and the one recovery
//! from a missing active device.
use vstd::prelude::*;
use vstd::string::*;

use crate::error::OperationError;
use crate::response::Response;
use crate::status::RepeatState;
use crate::text::{decimal, decimal_string};

verus! {

/// The acknowledgement of a pause.
pub fn paused() -> (r: Response)
    ensures
        r@ == (seq!["Paused playback"@], false),
{
    Response::single(String::from_str("Paused playback"), false)
}

/// The acknowledgement of skipping `count` tracks.
pub fn skipped(count: u8) -> (r: Response)
    ensures
        r@ == (seq!["Skipped "@ + decimal(count as nat) + " tracks"@], false),
{
    let mut line = String::from_str("Skipped ");
    line.append(decimal_string(count as u64).as_str());
    line.append(" tracks");
    Response::single(line, false)
}

/// The acknowledgement of a new volume level.
pub fn volume_set(level: u8) -> (r: Response)
    ensures
        r@ == (seq!["Set volume to "@ + decimal(level as nat)], false),
{
    let mut line = String::from_str("Set volume to ");
    line.append(decimal_string(level as u64).as_str());
    Response::single(line, false)
}

/// The acknowledgement of a new shuffle state.
pub fn shuffle_set(state: bool) -> (r: Response)
    ensures
        r@ == (
            seq![
                "Set shuffle to "@ + if state {
                    "true"@
                } else {
                    "false"@
                },
            ],
            false,
        ),
{
    let mut line = String::from_str("Set shuffle to ");
    line.append(
        if state {
            "true"
        } else {
            "false"
        },
    );
    Response::single(line, false)
}

/// The acknowledgement of a new repeat state.
pub fn repeat_set(state: RepeatState) -> (r: Response)
    ensures
        r@ == (seq!["Set repeat to "@ + state.label()], false),
{
    let mut line = String::from_str("Set repeat to ");
    line.append(state.label_str());
    Response::single(line, false)
}

/// Whether a failed operation earns the one recovery: the service said "not
/// found" (no active device) and no recovery was tried yet.
pub fn should_recover(error: &OperationError, attempted: bool) -> (r: bool)
    ensures
        r == (!attempted && (error matches OperationError::Remote(e) && e.not_found)),
{
    if attempted {
        return false;
    }
    match error {
        OperationError::Remote(e) => e.not_found,
        _ => false,
    }
}

/// The result of an operation after the recovery: the retried operation's
/// result if connecting and retrying both succeeded, else the first error.
pub fn after_recovery(
    first_error: OperationError,
    connected: bool,
    retried: Option<Result<Response, OperationError>>,
) -> (r: Result<Response, OperationError>)
    ensures
        (connected && (retried matches Some(Ok(_)))) ==> r == Ok::<Response, OperationError>(
            retried->0->Ok_0,
        ),
        !(connected && (retried matches Some(Ok(_)))) ==> r == Err::<Response, OperationError>(
            first_error,
        ),
{
    if connected {
        match retried {
            Some(Ok(resp)) => Ok(resp),
            _ => Err(first_error),
        }
    } else {
        Err(first_error)
    }
}

} // verus!
