//! The words for the operator: one line for each report, and one for each
//! command before it is carried out.

use vstd::prelude::*;
use vstd::string::*;
use crate::builder::{BuildError, BuildStage};
use crate::outcome::{InstallOutcome, UninstallOutcome};
use crate::platform::PlatformKind;
use crate::protocol::{Artifact, Command, ProcessResult, RemovalResult};
use crate::report::{Cause, Report};
use crate::service::{RegistrationError, RegistrationStage};

verus! {

/// The line that tells of a removal: that the file was cleaned up, or
/// that there was nothing to remove or that it could not be deleted.
pub open spec fn cleanup_text(platform: PlatformKind, artifact: Artifact, result: RemovalResult) -> &'static str {
    let removed = result == RemovalResult::Removed;
    match artifact {
        Artifact::Credentials => if removed {
            "Cleaned up .env file."
        } else {
            "No .env file to remove or failed to delete."
        },
        Artifact::Descriptor => match platform {
            PlatformKind::Windows => if removed {
                "Removed installation script"
            } else {
                "No installation script to remove"
            },
            PlatformKind::MacOS => if removed {
                "Cleaned up launch agent."
            } else {
                "No launch agent to remove or failed to delete."
            },
            _ => if removed {
                "Cleaned up systemd file."
            } else {
                "No systemd file to remove or failed to delete."
            },
        },
    }
}

/// The line that tells why the installation failed.
pub open spec fn cause_text(platform: PlatformKind, cause: Cause) -> &'static str {
    match cause {
        Cause::InvalidUri => "The URI holds a character that the .env file cannot hold, aborting...",
        Cause::CredentialsNotWritten => "Error writing to .env",
        Cause::Build(e) => match e.stage {
            BuildStage::Install => if e.spec_is_fatal() {
                "Failed to run npm install"
            } else {
                "Node.js failed to install dependencies, aborting..."
            },
            BuildStage::Build => if e.spec_is_fatal() {
                "Failed to run npm run build"
            } else {
                "Next.js build failed, aborting..."
            },
        },
        Cause::UnsupportedPlatform => "Unsupported OS, aborting...",
        Cause::Registration(e) => match e.stage {
            RegistrationStage::Inputs => "The service cannot be described with these names and paths, aborting...",
            RegistrationStage::Credentials => "Failed to read the credentials back from .env",
            RegistrationStage::Descriptor => match platform {
                PlatformKind::Windows => "Failed to write service installation script",
                PlatformKind::MacOS => "Failed to write launch agent",
                _ => "Failed to write systemd service file",
            },
            RegistrationStage::Reload => "systemd did not reload its units",
            RegistrationStage::Enable => "Failed to enable the service",
            RegistrationStage::Start => "Failed to start the service",
            RegistrationStage::Script => "Windows service installation failed",
        },
        Cause::UnexpectedEvent => "Unexpected answer, aborting...",
    }
}

/// The line that tells how a call of the service manager ended.
pub open spec fn attempt_text(command: Command, result: ProcessResult) -> &'static str {
    if command == Command::StopService {
        if result.succeeded() {
            "Service stopped"
        } else if result == ProcessResult::LaunchFailed {
            "Service not running or already stopped"
        } else {
            "Failed to stop service, attempting to remove anyway"
        }
    } else if result.succeeded() {
        "Successfully removed the service"
    } else {
        "Failed to remove service"
    }
}

/// The line for `report`; empty where there is nothing to tell.
pub open spec fn news_text(platform: PlatformKind, report: Report) -> &'static str {
    match report {
        Report::Progress | Report::Nothing => "",
        Report::Retry => "Please try again...",
        Report::Declined => "Aborting...",
        Report::Failure(cause) => cause_text(platform, cause),
        Report::Cleanup { artifact, result } => cleanup_text(platform, artifact, result),
        Report::Attempt { command, result } => attempt_text(command, result),
    }
}

/// The line that goes before `command`; empty where there is nothing to
/// tell.
pub open spec fn announcement_text(platform: PlatformKind, command: Command) -> &'static str {
    match command {
        Command::AskUri => "Please Enter your MongoDB URI: ",
        Command::AskConfirmation => "Would you like to begin the Uninstall Process?",
        Command::WriteCredentials => "Generating Session Password...",
        Command::InstallDependencies => "Installing Node.js dependencies...",
        Command::BuildApplication => "Building the Next.js app...",
        Command::WriteDescriptor => match platform {
            PlatformKind::Windows => "Creating Windows Service...",
            PlatformKind::MacOS => "Creating launch agent...",
            _ => "Creating systemd Service...",
        },
        Command::StopService => "Cleaning up the service...",
        _ => "",
    }
}

/// The last line of an installation.
pub open spec fn install_farewell_text(platform: PlatformKind, outcome: InstallOutcome) -> &'static str {
    match outcome {
        InstallOutcome::Completed => match platform {
            PlatformKind::MacOS => "Installation complete. Load the launch agent to start the service.",
            _ => "Installation complete. Service started!",
        },
        InstallOutcome::FailedRolledBack(_) => "Installation failed. Nothing was left behind.",
        InstallOutcome::FailedPartial(_, _) => "Installation failed. Run the uninstaller to remove what was left behind.",
    }
}

/// The last line of an uninstallation.
pub open spec fn uninstall_farewell_text(outcome: UninstallOutcome) -> &'static str {
    match outcome {
        UninstallOutcome::Completed => "Uninstall process completed successfully!",
        UninstallOutcome::Declined => "Aborting...",
        UninstallOutcome::UnsupportedPlatform => "Unsupported OS, aborting...",
        UninstallOutcome::Aborted => "Unexpected answer, aborting...",
    }
}

/// The line that tells of a removal.
pub fn cleanup_line(platform: PlatformKind, artifact: Artifact, result: RemovalResult) -> (line:
    &'static str)
    ensures
        line@ == cleanup_text(platform, artifact, result)@,
{
    let removed = matches!(result, RemovalResult::Removed);
    match artifact {
        Artifact::Credentials => if removed {
            "Cleaned up .env file."
        } else {
            "No .env file to remove or failed to delete."
        },
        Artifact::Descriptor => match platform {
            PlatformKind::Windows => if removed {
                "Removed installation script"
            } else {
                "No installation script to remove"
            },
            PlatformKind::MacOS => if removed {
                "Cleaned up launch agent."
            } else {
                "No launch agent to remove or failed to delete."
            },
            _ => if removed {
                "Cleaned up systemd file."
            } else {
                "No systemd file to remove or failed to delete."
            },
        },
    }
}

/// The line that tells why the installation failed.
pub fn cause_line(platform: PlatformKind, cause: Cause) -> (line: &'static str)
    ensures
        line@ == cause_text(platform, cause)@,
{
    match cause {
        Cause::InvalidUri => "The URI holds a character that the .env file cannot hold, aborting...",
        Cause::CredentialsNotWritten => "Error writing to .env",
        Cause::Build(e) => match e.stage {
            BuildStage::Install => if e.is_fatal() {
                "Failed to run npm install"
            } else {
                "Node.js failed to install dependencies, aborting..."
            },
            BuildStage::Build => if e.is_fatal() {
                "Failed to run npm run build"
            } else {
                "Next.js build failed, aborting..."
            },
        },
        Cause::UnsupportedPlatform => "Unsupported OS, aborting...",
        Cause::Registration(e) => match e.stage {
            RegistrationStage::Inputs => "The service cannot be described with these names and paths, aborting...",
            RegistrationStage::Credentials => "Failed to read the credentials back from .env",
            RegistrationStage::Descriptor => match platform {
                PlatformKind::Windows => "Failed to write service installation script",
                PlatformKind::MacOS => "Failed to write launch agent",
                _ => "Failed to write systemd service file",
            },
            RegistrationStage::Reload => "systemd did not reload its units",
            RegistrationStage::Enable => "Failed to enable the service",
            RegistrationStage::Start => "Failed to start the service",
            RegistrationStage::Script => "Windows service installation failed",
        },
        Cause::UnexpectedEvent => "Unexpected answer, aborting...",
    }
}

/// The line that tells how a call of the service manager ended.
pub fn attempt_line(command: Command, result: ProcessResult) -> (line: &'static str)
    ensures
        line@ == attempt_text(command, result)@,
{
    match command {
        Command::StopService => if result.is_success() {
            "Service stopped"
        } else {
            match result {
                ProcessResult::LaunchFailed => "Service not running or already stopped",
                _ => "Failed to stop service, attempting to remove anyway",
            }
        },
        _ => if result.is_success() {
            "Successfully removed the service"
        } else {
            "Failed to remove service"
        },
    }
}

/// The line for `report`; empty where there is nothing to tell.
pub fn news(platform: PlatformKind, report: Report) -> (line: &'static str)
    ensures
        line@ == news_text(platform, report)@,
{
    match report {
        Report::Progress | Report::Nothing => "",
        Report::Retry => "Please try again...",
        Report::Declined => "Aborting...",
        Report::Failure(cause) => cause_line(platform, cause),
        Report::Cleanup { artifact, result } => cleanup_line(platform, artifact, result),
        Report::Attempt { command, result } => attempt_line(command, result),
    }
}

/// The line that goes before `command`; empty where there is nothing to
/// tell.
pub fn announcement(platform: PlatformKind, command: Command) -> (line: &'static str)
    ensures
        line@ == announcement_text(platform, command)@,
{
    match command {
        Command::AskUri => "Please Enter your MongoDB URI: ",
        Command::AskConfirmation => "Would you like to begin the Uninstall Process?",
        Command::WriteCredentials => "Generating Session Password...",
        Command::InstallDependencies => "Installing Node.js dependencies...",
        Command::BuildApplication => "Building the Next.js app...",
        Command::WriteDescriptor => match platform {
            PlatformKind::Windows => "Creating Windows Service...",
            PlatformKind::MacOS => "Creating launch agent...",
            _ => "Creating systemd Service...",
        },
        Command::StopService => "Cleaning up the service...",
        _ => "",
    }
}

/// The last line of an installation.
pub fn install_farewell(platform: PlatformKind, outcome: InstallOutcome) -> (line: &'static str)
    ensures
        line@ == install_farewell_text(platform, outcome)@,
{
    match outcome {
        InstallOutcome::Completed => match platform {
            PlatformKind::MacOS => "Installation complete. Load the launch agent to start the service.",
            _ => "Installation complete. Service started!",
        },
        InstallOutcome::FailedRolledBack(_) => "Installation failed. Nothing was left behind.",
        InstallOutcome::FailedPartial(_, _) => "Installation failed. Run the uninstaller to remove what was left behind.",
    }
}

/// The last line of an uninstallation.
pub fn uninstall_farewell(outcome: UninstallOutcome) -> (line: &'static str)
    ensures
        line@ == uninstall_farewell_text(outcome)@,
{
    match outcome {
        UninstallOutcome::Completed => "Uninstall process completed successfully!",
        UninstallOutcome::Declined => "Aborting...",
        UninstallOutcome::UnsupportedPlatform => "Unsupported OS, aborting...",
        UninstallOutcome::Aborted => "Unexpected answer, aborting...",
    }
}

} // verus!
