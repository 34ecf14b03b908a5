//! The build runner: two subprocesses, the installation of the
//! dependencies and then the build, each judged by how it ended.

use vstd::prelude::*;
use crate::protocol::ProcessResult;

verus! {

/// The two steps of a build.
#[derive(Clone, Copy, PartialEq, Eq, Structural, Debug)]
pub enum BuildStage {
    Install,
    Build,
}

/// A build step that did not succeed: the step, and how its subprocess
/// ended. `LaunchFailed` says that the tool is missing; an exit code other
/// than zero says that the tool ran and gave up.
#[derive(Clone, Copy, PartialEq, Eq, Structural, Debug)]
pub struct BuildError {
    pub stage: BuildStage,
    pub cause: ProcessResult,
}

impl BuildError {
    /// The exit code that the tool left, if it left one.
    pub open spec fn spec_exit_code(self) -> Option<i32> {
        match self.cause {
            ProcessResult::Exited { code } => Some(code),
            _ => None,
        }
    }

    /// The exit code that the tool left, if it left one.
    pub fn exit_code(&self) -> (code: Option<i32>)
        ensures
            code == self.spec_exit_code(),
    {
        match self.cause {
            ProcessResult::Exited { code } => Some(code),
            _ => None,
        }
    }

    /// The tool could not be started: nothing can be done about it here.
    pub open spec fn spec_is_fatal(self) -> bool {
        self.cause == ProcessResult::LaunchFailed
    }

    /// Whether the tool could not be started.
    pub fn is_fatal(&self) -> (b: bool)
        ensures
            b == self.spec_is_fatal(),
    {
        match self.cause {
            ProcessResult::LaunchFailed => true,
            _ => false,
        }
    }
}

/// The verdict on one step: `Ok` for exit code zero, else the error with
/// the step and the way the subprocess ended.
pub open spec fn verdict(stage: BuildStage, result: ProcessResult) -> Result<(), BuildError> {
    if result.succeeded() {
        Ok(())
    } else {
        Err(BuildError { stage, cause: result })
    }
}

/// Judges one step of the build by the way its subprocess ended.
pub fn judge(stage: BuildStage, result: ProcessResult) -> (v: Result<(), BuildError>)
    ensures
        v == verdict(stage, result),
{
    if result.is_success() {
        Ok(())
    } else {
        Err(BuildError { stage, cause: result })
    }
}

} // verus!
