//! What can go wrong while launching and supervising the backend.

use vstd::prelude::*;

verus! {

/// A failure of the launcher. The first three abort startup; the others are
/// noted and the launcher carries on.
#[derive(Clone, Debug, PartialEq, Eq)]
pub enum LaunchError {
    /// The operating system offered no usable ephemeral port.
    PortExhausted,
    /// The backend executable is in none of the places it is looked for.
    BackendNotFound,
    /// The operating system could not create the backend process; the text
    /// is the cause it gave.
    SpawnFailed(String),
    /// The execute bits of the backend executable could not be set.
    PermissionRepairFailed,
    /// A line of backend output was not valid text.
    StreamDecodeError,
    /// The backend had already exited when it was to be killed.
    TerminateRace,
    /// The helper command for restart or shutdown could not be started.
    PowerCommandUnavailable,
}

/// Something the launcher tries while the application runs and that may
/// fail without ending the run.
#[derive(Clone, Copy, Debug, PartialEq, Eq, Structural)]
pub enum Attempt {
    /// Setting the execute bits of the backend executable.
    RepairPermissions,
    /// Reading a line of backend output as text.
    DecodeLine,
    /// Killing the backend.
    KillBackend,
    /// Starting the helper command for restart or shutdown.
    StartPowerHelper,
}

/// The failure that a failed attempt stands for.
pub open spec fn failure_of(attempt: Attempt) -> LaunchError {
    match attempt {
        Attempt::RepairPermissions => LaunchError::PermissionRepairFailed,
        Attempt::DecodeLine => LaunchError::StreamDecodeError,
        Attempt::KillBackend => LaunchError::TerminateRace,
        Attempt::StartPowerHelper => LaunchError::PowerCommandUnavailable,
    }
}

/// What is to be noted after an attempt: nothing where it succeeded, its
/// failure where it did not. Such a failure is never fatal: the launcher
/// notes it and carries on as if the attempt had succeeded.
pub fn note_attempt(attempt: Attempt, succeeded: bool) -> (noted: Option<LaunchError>)
    ensures
        noted == (if succeeded {
            None
        } else {
            Some(failure_of(attempt))
        }),
        noted matches Some(e) ==> !e.fatal(),
{
    if succeeded {
        None
    } else {
        Some(
            match attempt {
                Attempt::RepairPermissions => LaunchError::PermissionRepairFailed,
                Attempt::DecodeLine => LaunchError::StreamDecodeError,
                Attempt::KillBackend => LaunchError::TerminateRace,
                Attempt::StartPowerHelper => LaunchError::PowerCommandUnavailable,
            },
        )
    }
}

/// Exit code of the launcher after a user-requested quit, restart or
/// shutdown, and after any failure that is not fatal.
pub const EXIT_OK: i32 = 0;

/// Exit code of the launcher after a fatal startup failure.
pub const EXIT_STARTUP_FAILURE: i32 = 1;

impl LaunchError {
    /// Whether the failure aborts startup.
    pub open spec fn fatal(self) -> bool {
        self is PortExhausted || self is BackendNotFound || self is SpawnFailed
    }

    /// Whether the failure aborts startup.
    pub fn is_fatal(&self) -> (fatal: bool)
        ensures
            fatal == self.fatal(),
    {
        match self {
            LaunchError::PortExhausted => true,
            LaunchError::BackendNotFound => true,
            LaunchError::SpawnFailed(_) => true,
            _ => false,
        }
    }

    /// The exit code the launcher ends with when this failure is the last
    /// thing that happened: non-zero exactly for the fatal ones.
    pub fn exit_code(&self) -> (code: i32)
        ensures
            code == (if self.fatal() {
                EXIT_STARTUP_FAILURE
            } else {
                EXIT_OK
            }),
            code != 0 <==> self.fatal(),
    {
        if self.is_fatal() {
            EXIT_STARTUP_FAILURE
        } else {
            EXIT_OK
        }
    }
}

} // verus!
