//! How an orchestrator ends, and the exit code that goes with it.

use vstd::prelude::*;

verus! {

/// The steps of an installation at which it can fail.
#[derive(Clone, Copy, PartialEq, Eq, Structural, Debug)]
pub enum Stage {
    /// Generating the session secret and writing the credentials.
    Secrets,
    /// Installing the dependencies and building the application.
    Build,
    /// Registering the service with the platform's service manager.
    Registration,
}

/// Why an installation that failed may have left something behind.
#[derive(Clone, Copy, PartialEq, Eq, Structural, Debug)]
pub enum PartialReason {
    /// A program could not be started; nothing was rolled back.
    LaunchFailure,
    /// The rollback could not remove a file.
    CleanupIncomplete,
    /// The driver answered with an event that the pending command cannot
    /// give; nothing was rolled back.
    UnexpectedEvent,
}

/// The end of an installation.
#[derive(Clone, Copy, PartialEq, Eq, Structural, Debug)]
pub enum InstallOutcome {
    /// The service is registered.
    Completed,
    /// The step failed, and what the installation had written is removed.
    FailedRolledBack(Stage),
    /// The step failed, and files of the installation may be left.
    FailedPartial(Stage, PartialReason),
}

impl InstallOutcome {
    /// Zero for a complete installation, one for any other end.
    pub open spec fn spec_exit_code(self) -> i32 {
        if self == InstallOutcome::Completed {
            0
        } else {
            1
        }
    }

    /// The exit code of the process: zero for a complete installation, one
    /// for any other end.
    pub fn exit_code(&self) -> (code: i32)
        ensures
            code == self.spec_exit_code(),
    {
        match self {
            InstallOutcome::Completed => 0,
            _ => 1,
        }
    }
}

/// The end of an uninstallation.
#[derive(Clone, Copy, PartialEq, Eq, Structural, Debug)]
pub enum UninstallOutcome {
    /// Every removal was attempted.
    Completed,
    /// The operator declined; nothing was touched.
    Declined,
    /// The platform has no service manager that is known here; only the
    /// credentials were removed.
    UnsupportedPlatform,
    /// The driver answered with an event that the pending command cannot
    /// give.
    Aborted,
}

impl UninstallOutcome {
    /// Zero where every removal was attempted, one for any other end.
    pub open spec fn spec_exit_code(self) -> i32 {
        if self == UninstallOutcome::Completed {
            0
        } else {
            1
        }
    }

    /// The exit code of the process: zero where every removal was
    /// attempted, one for any other end.
    pub fn exit_code(&self) -> (code: i32)
        ensures
            code == self.spec_exit_code(),
    {
        match self {
            UninstallOutcome::Completed => 0,
            _ => 1,
        }
    }
}

} // verus!
