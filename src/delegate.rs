use crate::error::LaunchError;
use vstd::prelude::*;

verus! {

/// The exit code reported when the child ended without one (killed by a
/// signal, for instance).
pub const FALLBACK_EXIT_CODE: i32 = 1;

/// The launcher's exit code for a child that ended with `status`: the child's
/// own code, or the fallback when it has none.
pub fn exit_code(status: Option<i32>) -> (r: i32)
    ensures
        r == match status {
            Some(c) => c,
            None => FALLBACK_EXIT_CODE,
        },
{
    match status {
        Some(c) => c,
        None => FALLBACK_EXIT_CODE,
    }
}

/// Maps the outcome of starting and awaiting the child: `Ok(status)` once it
/// ended, or the system's message when it could not be started.
pub fn delegation_result(spawned: Result<Option<i32>, String>) -> (r: Result<i32, LaunchError>)
    ensures
        match spawned {
            Ok(status) => r == Ok::<i32, LaunchError>(
                match status {
                    Some(c) => c,
                    None => FALLBACK_EXIT_CODE,
                },
            ),
            Err(msg) => r == Err::<i32, LaunchError>(LaunchError::SpawnFailed(msg)),
        },
{
    match spawned {
        Ok(status) => Ok(exit_code(status)),
        Err(msg) => Err(LaunchError::SpawnFailed(msg)),
    }
}

/// The code the process exits with: the child's code when it ran, and the
/// fallback for every failure of the launcher itself.
pub fn exit_status(outcome: &Result<i32, LaunchError>) -> (r: i32)
    ensures
        r == match outcome {
            Ok(c) => *c,
            Err(_) => FALLBACK_EXIT_CODE,
        },
{
    match outcome {
        Ok(c) => *c,
        Err(_) => FALLBACK_EXIT_CODE,
    }
}

} // verus!
