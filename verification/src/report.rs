//! What an orchestrator has to tell the operator about the step that just
//! ended.

use vstd::prelude::*;
use crate::builder::BuildError;
use crate::protocol::{Artifact, Command, ProcessResult, RemovalResult};
use crate::service::RegistrationError;

verus! {

/// Why an installation failed.
#[derive(Clone, Copy, PartialEq, Eq, Structural, Debug)]
pub enum Cause {
    /// The URI holds a character that the environment file cannot hold.
    InvalidUri,
    /// The environment file could not be written.
    CredentialsNotWritten,
    /// A build step failed.
    Build(BuildError),
    /// No registrar exists for the platform.
    UnsupportedPlatform,
    /// A step of the registration failed.
    Registration(RegistrationError),
    /// The event does not answer the pending command.
    UnexpectedEvent,
}

/// The news of one step.
#[derive(Clone, Copy, PartialEq, Eq, Structural, Debug)]
#[allow(inconsistent_fields)]
pub enum Report {
    /// The command succeeded.
    Progress,
    /// The operator did not confirm the URI and is asked again.
    Retry,
    /// The operator declined.
    Declined,
    /// The step failed for this cause.
    Failure(Cause),
    /// A removal ended in this way: the file was removed, there was
    /// nothing to remove, or it could not be removed.
    Cleanup { artifact: Artifact, result: RemovalResult },
    /// A call of the service manager that is made for what it is worth
    /// ended in this way.
    Attempt { command: Command, result: ProcessResult },
    /// Nothing happened: the orchestrator had already finished.
    Nothing,
}

} // verus!
