//! How the driver carries a command out: the program to run with its
//! arguments, or the file to work on.

use vstd::prelude::*;
use vstd::string::*;
use crate::platform::PlatformKind;
use crate::protocol::Command;
use crate::service::ServiceConfig;

verus! {

/// The texts of `words`, in order.
pub open spec fn texts(words: Seq<String>) -> Seq<Seq<char>> {
    Seq::new(words.len(), |i: int| words[i]@)
}

/// The program that `command` runs, followed by its arguments; `None` for
/// a command that runs no program on this platform.
pub open spec fn command_line(config: ServiceConfig, command: Command) -> Option<Seq<Seq<char>>> {
    match command {
        Command::InstallDependencies => Some(seq!["npm"@, "install"@]),
        Command::BuildApplication => Some(seq!["npm"@, "run"@, "build"@]),
        Command::ReloadManager => Some(seq!["systemctl"@, "daemon-reexec"@]),
        Command::EnableService => Some(seq!["systemctl"@, "enable"@, config.unit_name@]),
        Command::StartService => Some(seq!["systemctl"@, "start"@, config.unit_name@]),
        Command::RunScript => Some(seq!["cmd"@, "/C"@, config.descriptor_path@]),
        Command::StopService => match config.platform {
            PlatformKind::Linux => Some(seq!["systemctl"@, "stop"@, config.unit_name@]),
            PlatformKind::Windows => Some(
                seq!["cmd"@, "/C"@, "nssm stop "@ + config.service_name@],
            ),
            PlatformKind::MacOS => Some(seq!["launchctl"@, "stop"@, config.service_name@]),
            PlatformKind::Unsupported => None,
        },
        Command::DeregisterService => match config.platform {
            PlatformKind::Linux => Some(seq!["systemctl"@, "disable"@, config.unit_name@]),
            PlatformKind::Windows => Some(
                seq!["cmd"@, "/C"@, "nssm remove "@ + config.service_name@ + " confirm"@],
            ),
            PlatformKind::MacOS => Some(seq!["launchctl"@, "unload"@, config.descriptor_path@]),
            PlatformKind::Unsupported => None,
        },
        _ => None,
    }
}

/// Whether the program of `command` runs in the directory of the
/// application.
pub open spec fn runs_in_working_dir(command: Command) -> bool {
    command == Command::InstallDependencies || command == Command::BuildApplication
}

/// The file that `command` writes, reads or removes; `None` for a command
/// that works on no file.
pub open spec fn target_path(config: ServiceConfig, command: Command) -> Option<Seq<char>> {
    match command {
        Command::WriteCredentials | Command::ReadCredentials | Command::RemoveCredentials => Some(
            config.env_file@,
        ),
        Command::WriteDescriptor | Command::RemoveDescriptor => Some(config.descriptor_path@),
        _ => None,
    }
}

fn two(a: &str, b: &str) -> (line: Vec<String>)
    ensures
        texts(line@) == seq![a@, b@],
{
    let mut line: Vec<String> = Vec::new();
    line.push(a.to_owned());
    line.push(b.to_owned());
    assert(texts(line@) =~= seq![a@, b@]);
    line
}

fn three(a: &str, b: &str, c: &str) -> (line: Vec<String>)
    ensures
        texts(line@) == seq![a@, b@, c@],
{
    let mut line: Vec<String> = Vec::new();
    line.push(a.to_owned());
    line.push(b.to_owned());
    line.push(c.to_owned());
    assert(texts(line@) =~= seq![a@, b@, c@]);
    line
}

/// The program that `command` runs, followed by its arguments.
pub fn invocation(config: &ServiceConfig, command: Command) -> (line: Option<Vec<String>>)
    ensures
        match line {
            Some(words) => command_line(*config, command) == Some(texts(words@)),
            None => command_line(*config, command) is None,
        },
{
    match command {
        Command::InstallDependencies => Some(two("npm", "install")),
        Command::BuildApplication => Some(three("npm", "run", "build")),
        Command::ReloadManager => Some(two("systemctl", "daemon-reexec")),
        Command::EnableService => Some(three("systemctl", "enable", config.unit_name.as_str())),
        Command::StartService => Some(three("systemctl", "start", config.unit_name.as_str())),
        Command::RunScript => Some(three("cmd", "/C", config.descriptor_path.as_str())),
        Command::StopService => match config.platform {
            PlatformKind::Linux => Some(three("systemctl", "stop", config.unit_name.as_str())),
            PlatformKind::Windows => {
                let mut call = String::from_str("nssm stop ");
                call.append(config.service_name.as_str());
                Some(three("cmd", "/C", call.as_str()))
            },
            PlatformKind::MacOS => Some(three("launchctl", "stop", config.service_name.as_str())),
            PlatformKind::Unsupported => None,
        },
        Command::DeregisterService => match config.platform {
            PlatformKind::Linux => Some(three("systemctl", "disable", config.unit_name.as_str())),
            PlatformKind::Windows => {
                let mut call = String::from_str("nssm remove ");
                call.append(config.service_name.as_str());
                call.append(" confirm");
                Some(three("cmd", "/C", call.as_str()))
            },
            PlatformKind::MacOS => Some(
                three("launchctl", "unload", config.descriptor_path.as_str()),
            ),
            PlatformKind::Unsupported => None,
        },
        _ => None,
    }
}

/// Whether the program of `command` runs in the directory of the
/// application.
pub fn in_working_dir(command: Command) -> (b: bool)
    ensures
        b == runs_in_working_dir(command),
{
    match command {
        Command::InstallDependencies | Command::BuildApplication => true,
        _ => false,
    }
}

/// The file that `command` writes, reads or removes.
pub fn target(config: &ServiceConfig, command: Command) -> (path: Option<String>)
    ensures
        match path {
            Some(p) => target_path(*config, command) == Some(p@),
            None => target_path(*config, command) is None,
        },
{
    match command {
        Command::WriteCredentials | Command::ReadCredentials | Command::RemoveCredentials => Some(
            config.env_file.clone(),
        ),
        Command::WriteDescriptor | Command::RemoveDescriptor => Some(
            config.descriptor_path.clone(),
        ),
        _ => None,
    }
}

} // verus!
