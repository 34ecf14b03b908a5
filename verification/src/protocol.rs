//! What passes between an orchestrator and the program that drives it. An
//! orchestrator names the next command; the driver carries it out on the
//! host and answers with an event.

use vstd::prelude::*;

verus! {

/// How a subprocess ended.
#[derive(Clone, Copy, PartialEq, Eq, Structural, Debug)]
pub enum ProcessResult {
    /// The program could not be started.
    LaunchFailed,
    /// The program ran and left this exit code.
    Exited { code: i32 },
    /// The program was ended from outside and left no exit code.
    Killed,
}

impl ProcessResult {
    /// The program ran and reported success.
    pub open spec fn succeeded(self) -> bool {
        self == (ProcessResult::Exited { code: 0 })
    }

    /// Whether the program ran and reported success.
    pub fn is_success(self) -> (b: bool)
        ensures
            b == self.succeeded(),
    {
        match self {
            ProcessResult::Exited { code } => code == 0,
            _ => false,
        }
    }
}

/// How the attempt to remove a file ended.
#[derive(Clone, Copy, PartialEq, Eq, Structural, Debug)]
pub enum RemovalResult {
    /// The file was there and is gone.
    Removed,
    /// There was no such file.
    Missing,
    /// The file could not be removed.
    Failed,
}

/// The files that an installation leaves on the host.
#[derive(Clone, Copy, PartialEq, Eq, Structural, Debug)]
pub enum Artifact {
    /// The environment file with the credentials.
    Credentials,
    /// The unit file, the generated script or the launch agent.
    Descriptor,
}

/// What an orchestrator asks its driver to do next.
#[derive(Clone, Copy, PartialEq, Eq, Structural, Debug)]
pub enum Command {
    /// Ask the operator for the database URI and whether it is correct.
    AskUri,
    /// Ask the operator whether to uninstall.
    AskConfirmation,
    /// Create or truncate the environment file and write the given text.
    WriteCredentials,
    /// Read the environment file.
    ReadCredentials,
    /// Remove the environment file.
    RemoveCredentials,
    /// Create or truncate the descriptor and write the given text.
    WriteDescriptor,
    /// Remove the descriptor.
    RemoveDescriptor,
    /// Install the dependencies of the application.
    InstallDependencies,
    /// Build the application.
    BuildApplication,
    /// Have the service manager read its units again.
    ReloadManager,
    /// Enable the service, so that it starts at boot.
    EnableService,
    /// Start the service.
    StartService,
    /// Run the generated script.
    RunScript,
    /// Stop the running service.
    StopService,
    /// Take the service out of the service manager.
    DeregisterService,
    /// Leave, with the exit code of the outcome.
    Finish,
}

/// What the driver answers.
#[derive(Clone, Debug)]
#[allow(inconsistent_fields)]
pub enum Event {
    /// The operator typed `uri` and said whether it is correct.
    UriAnswer { uri: String, confirmed: bool },
    /// The operator agreed to uninstall, or declined.
    Confirmation { agreed: bool },
    /// The file was written and closed.
    Written,
    /// The file could not be created or written.
    WriteFailed,
    /// The environment file holds `text`.
    CredentialsRead { text: String },
    /// The environment file could not be read.
    ReadFailed,
    /// The subprocess ended.
    Process { result: ProcessResult },
    /// The removal ended.
    Removal { result: RemovalResult },
}

} // verus!
