use std::collections::BTreeMap;
use std::collections::VecDeque;

use dormnet_setup::builder::{BuildError, BuildStage};
use dormnet_setup::cleanup::removed;
use dormnet_setup::commands::{invocation, target};
use dormnet_setup::credentials::CredentialSet;
use dormnet_setup::install;
use dormnet_setup::install::{InstallState, Milestone, Step};
use dormnet_setup::outcome::{InstallOutcome, PartialReason, Stage, UninstallOutcome};
use dormnet_setup::platform::PlatformKind;
use dormnet_setup::protocol::{Artifact, Command, Event, ProcessResult, RemovalResult};
use dormnet_setup::report::{Cause, Report};
use dormnet_setup::secret::SESSION_CHARSET;
use dormnet_setup::service::{RegistrationError, RegistrationStage, ServiceConfig};
use dormnet_setup::uninstall;
use dormnet_setup::uninstall::UninstallState;

const OK: ProcessResult = ProcessResult::Exited { code: 0 };

/// A host that exists in memory only: its files, the programs that fail on
/// it, and what its operator answers.
struct Host {
    files: BTreeMap<String, String>,
    failing: BTreeMap<String, ProcessResult>,
    unwritable: Vec<String>,
    unreadable: Vec<String>,
    undeletable: Vec<String>,
    answers: VecDeque<(String, bool)>,
    agrees: bool,
    done: Vec<Command>,
    started: Vec<String>,
}

impl Host {
    fn new() -> Host {
        Host {
            files: BTreeMap::new(),
            failing: BTreeMap::new(),
            unwritable: Vec::new(),
            unreadable: Vec::new(),
            undeletable: Vec::new(),
            answers: VecDeque::new(),
            agrees: true,
            done: Vec::new(),
            started: Vec::new(),
        }
    }

    fn answering(uri: &str) -> Host {
        let mut host = Host::new();
        host.answers.push_back((uri.to_string(), true));
        host
    }

    fn fails(mut self, line: &str, result: ProcessResult) -> Host {
        self.failing.insert(line.to_string(), result);
        self
    }

    fn remove(&mut self, path: &str) -> RemovalResult {
        if self.undeletable.iter().any(|p| p == path) {
            RemovalResult::Failed
        } else if self.files.remove(path).is_some() {
            RemovalResult::Removed
        } else {
            RemovalResult::Missing
        }
    }

    fn carry_out(&mut self, config: &ServiceConfig, command: Command, content: Option<String>) -> Event {
        self.done.push(command);
        if let Some(words) = invocation(config, command) {
            let line = words.join(" ");
            let result = self.failing.get(&line).copied().unwrap_or(OK);
            if result == OK {
                self.started.push(line);
            }
            return Event::Process { result };
        }
        let path = target(config, command);
        match command {
            Command::AskUri => {
                let (uri, confirmed) = self.answers.pop_front().unwrap();
                Event::UriAnswer { uri, confirmed }
            }
            Command::AskConfirmation => Event::Confirmation { agreed: self.agrees },
            Command::WriteCredentials | Command::WriteDescriptor => {
                let path = path.unwrap();
                if self.unwritable.contains(&path) {
                    self.files.insert(path, String::new());
                    Event::WriteFailed
                } else {
                    self.files.insert(path, content.unwrap());
                    Event::Written
                }
            }
            Command::ReadCredentials => {
                let path = path.unwrap();
                if self.unreadable.contains(&path) {
                    return Event::ReadFailed;
                }
                match self.files.get(&path) {
                    Some(text) => Event::CredentialsRead { text: text.clone() },
                    None => Event::ReadFailed,
                }
            }
            Command::RemoveCredentials | Command::RemoveDescriptor => {
                Event::Removal { result: self.remove(&path.unwrap()) }
            }
            _ => unreachable!(),
        }
    }
}

fn config(platform: PlatformKind) -> ServiceConfig {
    let dir = if platform == PlatformKind::Windows { "C:\\apps\\dormnet" } else { "/srv/dormnet" };
    ServiceConfig::standard(platform, "deploy", "DormNet", "dormnet", dir, "/Users/me")
}

fn run_install(config: &ServiceConfig, host: &mut Host) -> (InstallOutcome, Vec<Report>) {
    let mut reports = Vec::new();
    let mut step: Step = install::start();
    for _ in 0..100 {
        if let Some(outcome) = install::outcome(step.state) {
            assert_eq!(step.command, Command::Finish);
            return (outcome, reports);
        }
        assert_eq!(step.command, install::pending_command(step.state));
        let event = host.carry_out(config, step.command, step.content);
        step = install::step(config, step.state, &event);
        reports.push(step.report);
    }
    panic!("the installation did not end");
}

fn run_uninstall(config: &ServiceConfig, host: &mut Host) -> (UninstallOutcome, Vec<Report>) {
    let mut reports = Vec::new();
    let mut step = uninstall::start();
    for _ in 0..100 {
        if let Some(outcome) = uninstall::outcome(step.state) {
            assert_eq!(step.command, Command::Finish);
            return (outcome, reports);
        }
        assert_eq!(step.command, uninstall::pending_command(step.state));
        let event = host.carry_out(config, step.command, None);
        step = uninstall::step(config.platform, step.state, &event);
        reports.push(step.report);
    }
    panic!("the uninstallation did not end");
}

fn registration_failure(stage: RegistrationStage) -> Report {
    Report::Failure(Cause::Registration(RegistrationError { stage }))
}

const URI: &str = "mongodb://user:pw@db.example.org:27017/dormnet";

#[test]
fn linux_installation_completes() {
    let config = config(PlatformKind::Linux);
    let mut host = Host::answering(URI);
    let (outcome, reports) = run_install(&config, &mut host);
    assert_eq!(outcome, InstallOutcome::Completed);
    assert_eq!(outcome.exit_code(), 0);
    assert!(reports.iter().all(|r| *r == Report::Progress));

    let env = host.files.get("/srv/dormnet/.env").unwrap();
    let lines: Vec<&str> = env.lines().collect();
    assert_eq!(lines.len(), 2);
    assert_eq!(lines[0], format!("MONGO_URI={}", URI));
    let secret = lines[1].strip_prefix("SESSION_PASSWORD=").unwrap();
    assert_eq!(secret.chars().count(), 32);
    assert!(secret.chars().all(|c| SESSION_CHARSET.contains(c)));
    assert!(env.ends_with('\n'));

    let unit = host.files.get("/etc/systemd/system/dormnet.service").unwrap();
    assert!(unit.contains("\nUser=deploy\n"));
    assert!(unit.contains("\nWorkingDirectory=/srv/dormnet\n"));
    assert!(unit.contains("\nEnvironmentFile=/srv/dormnet/.env\n"));
    assert!(unit.contains("\nRestart=always\n"));

    assert_eq!(
        host.started,
        vec![
            "npm install",
            "npm run build",
            "systemctl daemon-reexec",
            "systemctl enable dormnet.service",
            "systemctl start dormnet.service",
        ]
    );
    assert_eq!(
        host.done,
        vec![
            Command::AskUri,
            Command::WriteCredentials,
            Command::InstallDependencies,
            Command::BuildApplication,
            Command::WriteDescriptor,
            Command::ReloadManager,
            Command::EnableService,
            Command::StartService,
        ]
    );
}

#[test]
fn windows_installation_embeds_the_credentials_in_the_script() {
    let config = config(PlatformKind::Windows);
    let mut host = Host::answering(URI);
    let (outcome, _) = run_install(&config, &mut host);
    assert_eq!(outcome, InstallOutcome::Completed);
    let env = host.files.get("C:\\apps\\dormnet\\.env").unwrap().clone();
    let stored = CredentialSet::parse(&env).unwrap();
    let secret = stored.get("SESSION_PASSWORD").unwrap();
    let script = host.files.get("install_dormnet_service.bat").unwrap();
    assert!(script.contains(&format!("\"MONGO_URI={}\"", URI)));
    assert!(script.contains(&format!("\"SESSION_PASSWORD={}\"", secret.replace('%', "%%"))));
    assert_eq!(
        host.done,
        vec![
            Command::AskUri,
            Command::WriteCredentials,
            Command::InstallDependencies,
            Command::BuildApplication,
            Command::ReadCredentials,
            Command::WriteDescriptor,
            Command::RunScript,
        ]
    );
    assert_eq!(host.started.last().unwrap(), "cmd /C install_dormnet_service.bat");
}

#[test]
fn macos_installation_ends_with_the_written_agent() {
    let config = config(PlatformKind::MacOS);
    let mut host = Host::answering(URI);
    let (outcome, _) = run_install(&config, &mut host);
    assert_eq!(outcome, InstallOutcome::Completed);
    let agent = host.files.get("/Users/me/Library/LaunchAgents/dormnet.plist").unwrap();
    assert!(agent.contains("<key>MONGO_URI</key>"));
    assert!(agent.contains(&format!("<string>{}</string>", URI)));
    assert!(agent.contains("<key>RunAtLoad</key>\n    <true/>"));
    assert_eq!(host.started, vec!["npm install", "npm run build"]);
    assert_eq!(*host.done.last().unwrap(), Command::WriteDescriptor);
}

#[test]
fn failed_build_is_rolled_back() {
    let config = config(PlatformKind::Linux);
    let failed = ProcessResult::Exited { code: 2 };
    let mut host = Host::answering(URI).fails("npm run build", failed);
    let (outcome, reports) = run_install(&config, &mut host);
    assert_eq!(outcome, InstallOutcome::FailedRolledBack(Stage::Build));
    assert_eq!(outcome.exit_code(), 1);
    assert!(host.files.is_empty());
    assert!(!host.done.contains(&Command::WriteDescriptor));
    let cause = Cause::Build(BuildError { stage: BuildStage::Build, cause: failed });
    assert_eq!(
        reports[reports.len() - 2..],
        [
            Report::Failure(cause),
            Report::Cleanup { artifact: Artifact::Credentials, result: RemovalResult::Removed },
        ]
    );
}

#[test]
fn failed_dependency_installation_is_rolled_back_before_the_build() {
    let config = config(PlatformKind::Windows);
    let mut host = Host::answering(URI).fails("npm install", ProcessResult::Exited { code: 1 });
    let (outcome, _) = run_install(&config, &mut host);
    assert_eq!(outcome, InstallOutcome::FailedRolledBack(Stage::Build));
    assert!(host.files.is_empty());
    assert!(!host.done.contains(&Command::BuildApplication));
}

#[test]
fn unsupported_platform_removes_the_credentials() {
    let config = config(PlatformKind::Unsupported);
    let mut host = Host::answering(URI);
    let (outcome, reports) = run_install(&config, &mut host);
    assert_eq!(outcome, InstallOutcome::FailedRolledBack(Stage::Registration));
    assert_eq!(outcome.exit_code(), 1);
    assert!(host.files.is_empty());
    assert_eq!(
        host.done,
        vec![
            Command::AskUri,
            Command::WriteCredentials,
            Command::InstallDependencies,
            Command::BuildApplication,
            Command::RemoveCredentials,
        ]
    );
    assert!(reports.contains(&Report::Failure(Cause::UnsupportedPlatform)));
}

#[test]
fn a_failure_at_any_step_leaves_no_file() {
    let cases: Vec<(PlatformKind, &str, Stage)> = vec![
        (PlatformKind::Linux, "npm install", Stage::Build),
        (PlatformKind::Linux, "npm run build", Stage::Build),
        (PlatformKind::Linux, "systemctl daemon-reexec", Stage::Registration),
        (PlatformKind::Linux, "systemctl enable dormnet.service", Stage::Registration),
        (PlatformKind::Linux, "systemctl start dormnet.service", Stage::Registration),
        (PlatformKind::Windows, "npm run build", Stage::Build),
        (PlatformKind::Windows, "cmd /C install_dormnet_service.bat", Stage::Registration),
        (PlatformKind::MacOS, "npm install", Stage::Build),
    ];
    for (platform, line, stage) in cases {
        for result in [ProcessResult::Exited { code: 1 }, ProcessResult::Killed] {
            let config = config(platform);
            let mut host = Host::answering(URI).fails(line, result);
            let (outcome, _) = run_install(&config, &mut host);
            assert_eq!(outcome, InstallOutcome::FailedRolledBack(stage));
            assert!(host.files.is_empty());
        }
    }
}

#[test]
fn a_failed_registration_names_its_step() {
    let cases: Vec<(PlatformKind, &str, RegistrationStage)> = vec![
        (PlatformKind::Linux, "systemctl daemon-reexec", RegistrationStage::Reload),
        (PlatformKind::Linux, "systemctl enable dormnet.service", RegistrationStage::Enable),
        (PlatformKind::Linux, "systemctl start dormnet.service", RegistrationStage::Start),
        (PlatformKind::Windows, "cmd /C install_dormnet_service.bat", RegistrationStage::Script),
    ];
    for (platform, line, stage) in cases {
        let config = config(platform);
        let mut host = Host::answering(URI).fails(line, ProcessResult::Exited { code: 1 });
        let (outcome, reports) = run_install(&config, &mut host);
        assert_eq!(outcome, InstallOutcome::FailedRolledBack(Stage::Registration));
        assert_eq!(
            reports[reports.len() - 3..],
            [
                registration_failure(stage),
                Report::Cleanup { artifact: Artifact::Credentials, result: RemovalResult::Removed },
                Report::Cleanup { artifact: Artifact::Descriptor, result: RemovalResult::Removed },
            ]
        );
        assert_eq!(
            host.done[host.done.len() - 2..],
            [Command::RemoveCredentials, Command::RemoveDescriptor]
        );
    }
}

#[test]
fn a_file_that_cannot_be_written_is_rolled_back() {
    for platform in [PlatformKind::Linux, PlatformKind::Windows, PlatformKind::MacOS] {
        let config = config(platform);
        let mut host = Host::answering(URI);
        host.unwritable.push(config.env_file.clone());
        let (outcome, reports) = run_install(&config, &mut host);
        assert_eq!(outcome, InstallOutcome::FailedRolledBack(Stage::Secrets));
        assert!(host.files.is_empty());
        assert_eq!(reports[reports.len() - 2], Report::Failure(Cause::CredentialsNotWritten));

        let mut host = Host::answering(URI);
        host.unwritable.push(config.descriptor_path.clone());
        let (outcome, reports) = run_install(&config, &mut host);
        assert_eq!(outcome, InstallOutcome::FailedRolledBack(Stage::Registration));
        assert!(host.files.is_empty());
        assert_eq!(
            reports[reports.len() - 3..],
            [
                registration_failure(RegistrationStage::Descriptor),
                Report::Cleanup { artifact: Artifact::Credentials, result: RemovalResult::Removed },
                Report::Cleanup { artifact: Artifact::Descriptor, result: RemovalResult::Removed },
            ]
        );
    }
}

#[test]
fn credentials_that_cannot_be_read_back_fail_the_registration() {
    for platform in [PlatformKind::Windows, PlatformKind::MacOS] {
        let config = config(platform);
        let mut host = Host::answering(URI);
        host.unreadable.push(config.env_file.clone());
        let (outcome, reports) = run_install(&config, &mut host);
        assert_eq!(outcome, InstallOutcome::FailedRolledBack(Stage::Registration));
        assert!(host.files.is_empty());
        assert!(reports.contains(&registration_failure(RegistrationStage::Credentials)));
        assert!(!host.done.contains(&Command::WriteDescriptor));
    }
}

#[test]
fn names_that_the_registrar_refuses_fail_the_registration() {
    let mut config = config(PlatformKind::Linux);
    config.user = "two\nlines".to_string();
    let mut host = Host::answering(URI);
    let (outcome, reports) = run_install(&config, &mut host);
    assert_eq!(outcome, InstallOutcome::FailedRolledBack(Stage::Registration));
    assert!(host.files.is_empty());
    assert!(reports.contains(&registration_failure(RegistrationStage::Inputs)));
    assert!(!host.done.contains(&Command::WriteDescriptor));

    let mut config = self::config(PlatformKind::Windows);
    config.working_dir = "relative".to_string();
    let mut host = Host::answering(URI);
    let (outcome, reports) = run_install(&config, &mut host);
    assert_eq!(outcome, InstallOutcome::FailedRolledBack(Stage::Registration));
    assert!(host.files.is_empty());
    assert!(reports.contains(&registration_failure(RegistrationStage::Inputs)));
}

#[test]
fn a_uri_with_a_reserved_character_is_refused() {
    for uri in ["mongodb://db/?retryWrites=true", "mongodb://db\n", "\"mongodb://db\""] {
        let config = config(PlatformKind::Linux);
        let mut host = Host::answering(uri);
        let (outcome, reports) = run_install(&config, &mut host);
        assert_eq!(outcome, InstallOutcome::FailedRolledBack(Stage::Secrets));
        assert!(host.files.is_empty());
        assert_eq!(host.done, vec![Command::AskUri, Command::RemoveCredentials]);
        assert_eq!(
            reports,
            vec![
                Report::Failure(Cause::InvalidUri),
                Report::Cleanup { artifact: Artifact::Credentials, result: RemovalResult::Missing },
            ]
        );
    }
}

#[test]
fn the_operator_is_asked_until_the_uri_is_confirmed() {
    let config = config(PlatformKind::Linux);
    let mut host = Host::new();
    host.answers.push_back(("mongodb://typo".to_string(), false));
    host.answers.push_back(("mongodb://tpyo".to_string(), false));
    host.answers.push_back((URI.to_string(), true));
    let (outcome, reports) = run_install(&config, &mut host);
    assert_eq!(outcome, InstallOutcome::Completed);
    assert_eq!(reports[..3], [Report::Retry, Report::Retry, Report::Progress]);
    assert_eq!(host.done[..4], [
        Command::AskUri,
        Command::AskUri,
        Command::AskUri,
        Command::WriteCredentials
    ]);
    assert!(host.files.get("/srv/dormnet/.env").unwrap().starts_with(&format!("MONGO_URI={}\n", URI)));
}

#[test]
fn a_program_that_cannot_be_started_ends_the_run_without_rollback() {
    let config = config(PlatformKind::Linux);
    let mut host = Host::answering(URI).fails("npm install", ProcessResult::LaunchFailed);
    let (outcome, reports) = run_install(&config, &mut host);
    assert_eq!(outcome, InstallOutcome::FailedPartial(Stage::Build, PartialReason::LaunchFailure));
    assert_eq!(outcome.exit_code(), 1);
    assert!(host.files.contains_key("/srv/dormnet/.env"));
    assert!(!host.done.contains(&Command::RemoveCredentials));
    let cause = BuildError { stage: BuildStage::Install, cause: ProcessResult::LaunchFailed };
    assert_eq!(*reports.last().unwrap(), Report::Failure(Cause::Build(cause)));

    let mut host =
        Host::answering(URI).fails("systemctl enable dormnet.service", ProcessResult::LaunchFailed);
    let (outcome, reports) = run_install(&config, &mut host);
    assert_eq!(
        outcome,
        InstallOutcome::FailedPartial(Stage::Registration, PartialReason::LaunchFailure)
    );
    assert!(host.files.contains_key("/srv/dormnet/.env"));
    assert!(host.files.contains_key("/etc/systemd/system/dormnet.service"));
    assert_eq!(*reports.last().unwrap(), registration_failure(RegistrationStage::Enable));
}

#[test]
fn a_rollback_that_cannot_remove_a_file_is_not_called_clean() {
    let config = config(PlatformKind::Linux);
    let mut host =
        Host::answering(URI).fails("systemctl start dormnet.service", ProcessResult::Exited { code: 5 });
    host.undeletable.push(config.env_file.clone());
    let (outcome, reports) = run_install(&config, &mut host);
    assert_eq!(
        outcome,
        InstallOutcome::FailedPartial(Stage::Registration, PartialReason::CleanupIncomplete)
    );
    assert!(host.files.contains_key("/srv/dormnet/.env"));
    assert!(!host.files.contains_key("/etc/systemd/system/dormnet.service"));
    assert_eq!(
        reports[reports.len() - 3..],
        [
            registration_failure(RegistrationStage::Start),
            Report::Cleanup { artifact: Artifact::Credentials, result: RemovalResult::Failed },
            Report::Cleanup { artifact: Artifact::Descriptor, result: RemovalResult::Removed },
        ]
    );

    let mut host = Host::answering(URI).fails("npm run build", ProcessResult::Exited { code: 1 });
    host.undeletable.push(config.env_file.clone());
    let (outcome, _) = run_install(&config, &mut host);
    assert_eq!(
        outcome,
        InstallOutcome::FailedPartial(Stage::Build, PartialReason::CleanupIncomplete)
    );
}

#[test]
fn an_answer_that_does_not_fit_the_command_ends_the_run() {
    let config = config(PlatformKind::Linux);
    let cases = vec![
        (InstallState::AwaitingUri, Event::Written, Stage::Secrets),
        (InstallState::WritingCredentials, Event::Process { result: OK }, Stage::Secrets),
        (InstallState::InstallingDependencies, Event::Written, Stage::Build),
        (InstallState::Building, Event::ReadFailed, Stage::Build),
        (InstallState::ReadingCredentials, Event::Written, Stage::Registration),
        (InstallState::WritingDescriptor, Event::Process { result: OK }, Stage::Registration),
        (InstallState::ReloadingManager, Event::Written, Stage::Registration),
        (InstallState::EnablingService, Event::WriteFailed, Stage::Registration),
        (InstallState::StartingService, Event::Confirmation { agreed: true }, Stage::Registration),
        (InstallState::RunningScript, Event::Written, Stage::Registration),
        (
            InstallState::RemovingCredentials { stage: Stage::Build, descriptor: false, clean: true },
            Event::Written,
            Stage::Build,
        ),
        (
            InstallState::RemovingDescriptor { stage: Stage::Registration, clean: true },
            Event::Written,
            Stage::Registration,
        ),
    ];
    for (state, event, stage) in cases {
        let next = install::step(&config, state, &event);
        assert_eq!(
            next.state,
            InstallState::Finished(InstallOutcome::FailedPartial(
                stage,
                PartialReason::UnexpectedEvent
            ))
        );
        assert_eq!(next.report, Report::Failure(Cause::UnexpectedEvent));
        assert_eq!(next.command, Command::Finish);
        assert!(next.content.is_none());
        assert_eq!(install::stage(state), stage);
    }
}

#[test]
fn a_finished_installation_stays_finished() {
    let config = config(PlatformKind::Linux);
    for outcome in [
        InstallOutcome::Completed,
        InstallOutcome::FailedRolledBack(Stage::Build),
        InstallOutcome::FailedPartial(Stage::Secrets, PartialReason::LaunchFailure),
    ] {
        for event in [Event::Written, Event::Removal { result: RemovalResult::Removed }] {
            let next = install::step(&config, InstallState::Finished(outcome), &event);
            assert_eq!(next.state, InstallState::Finished(outcome));
            assert_eq!(next.report, Report::Nothing);
            assert_eq!(next.command, Command::Finish);
        }
    }
}

#[test]
fn provision_writes_the_uri_before_the_secret() {
    assert_eq!(
        install::provision("mongodb://db", "s3cr3t"),
        Ok("MONGO_URI=mongodb://db\nSESSION_PASSWORD=s3cr3t\n".to_string())
    );
    assert!(install::provision("a=b", "s3cr3t").is_err());
    assert!(install::provision("mongodb://db", "two\nlines").is_err());
    assert_eq!(install::MONGO_URI_KEY, "MONGO_URI");
    assert_eq!(install::SESSION_PASSWORD_KEY, "SESSION_PASSWORD");
}

#[test]
fn declined_uninstallation_touches_nothing() {
    let config = config(PlatformKind::Linux);
    let mut host = Host::new();
    host.agrees = false;
    host.files.insert(config.env_file.clone(), "MONGO_URI=x\n".to_string());
    host.files.insert(config.descriptor_path.clone(), "[Unit]".to_string());
    let (outcome, reports) = run_uninstall(&config, &mut host);
    assert_eq!(outcome, UninstallOutcome::Declined);
    assert_eq!(outcome.exit_code(), 1);
    assert_eq!(host.done, vec![Command::AskConfirmation]);
    assert_eq!(host.files.len(), 2);
    assert_eq!(reports, vec![Report::Declined]);
}

#[test]
fn uninstallation_of_nothing_completes() {
    let config = config(PlatformKind::Linux);
    let mut host = Host::new()
        .fails("systemctl stop dormnet.service", ProcessResult::Exited { code: 5 })
        .fails("systemctl disable dormnet.service", ProcessResult::Exited { code: 1 });
    let (outcome, reports) = run_uninstall(&config, &mut host);
    assert_eq!(outcome, UninstallOutcome::Completed);
    assert_eq!(outcome.exit_code(), 0);
    let removals: Vec<bool> = reports
        .iter()
        .filter_map(|r| match r {
            Report::Cleanup { result, .. } => Some(removed(*result)),
            _ => None,
        })
        .collect();
    assert_eq!(removals, vec![false, false]);
    assert_eq!(
        reports,
        vec![
            Report::Progress,
            Report::Cleanup { artifact: Artifact::Credentials, result: RemovalResult::Missing },
            Report::Attempt {
                command: Command::StopService,
                result: ProcessResult::Exited { code: 5 }
            },
            Report::Attempt {
                command: Command::DeregisterService,
                result: ProcessResult::Exited { code: 1 }
            },
            Report::Cleanup { artifact: Artifact::Descriptor, result: RemovalResult::Missing },
        ]
    );
}

#[test]
fn uninstallation_removes_what_the_installation_wrote() {
    for platform in [PlatformKind::Linux, PlatformKind::Windows, PlatformKind::MacOS] {
        let config = config(platform);
        let mut host = Host::answering(URI);
        assert_eq!(run_install(&config, &mut host).0, InstallOutcome::Completed);
        assert_eq!(host.files.len(), 2);
        host.done.clear();
        let (outcome, _) = run_uninstall(&config, &mut host);
        assert_eq!(outcome, UninstallOutcome::Completed);
        assert!(host.files.is_empty());
        assert_eq!(
            host.done,
            vec![
                Command::AskConfirmation,
                Command::RemoveCredentials,
                Command::StopService,
                Command::DeregisterService,
                Command::RemoveDescriptor,
            ]
        );
    }
}

#[test]
fn uninstallation_goes_on_when_a_program_cannot_be_started() {
    let config = config(PlatformKind::Windows);
    let mut host = Host::new()
        .fails("cmd /C nssm stop DormNet", ProcessResult::LaunchFailed)
        .fails("cmd /C nssm remove DormNet confirm", ProcessResult::LaunchFailed);
    host.files.insert(config.descriptor_path.clone(), "@echo off".to_string());
    let (outcome, _) = run_uninstall(&config, &mut host);
    assert_eq!(outcome, UninstallOutcome::Completed);
    assert!(host.files.is_empty());
}

#[test]
fn uninstallation_on_an_unsupported_platform_removes_the_credentials_only() {
    let config = config(PlatformKind::Unsupported);
    let mut host = Host::new();
    host.files.insert(config.env_file.clone(), "MONGO_URI=x\n".to_string());
    host.files.insert("/etc/systemd/system/dormnet.service".to_string(), "[Unit]".to_string());
    let (outcome, _) = run_uninstall(&config, &mut host);
    assert_eq!(outcome, UninstallOutcome::UnsupportedPlatform);
    assert_eq!(outcome.exit_code(), 1);
    assert_eq!(host.done, vec![Command::AskConfirmation, Command::RemoveCredentials]);
    assert_eq!(host.files.len(), 1);
    assert!(host.files.contains_key("/etc/systemd/system/dormnet.service"));
}

#[test]
fn an_answer_that_does_not_fit_aborts_the_uninstallation() {
    for state in [
        UninstallState::AwaitingConfirmation,
        UninstallState::RemovingCredentials,
        UninstallState::StoppingService,
        UninstallState::DeregisteringService,
        UninstallState::RemovingDescriptor,
    ] {
        let next = uninstall::step(PlatformKind::Linux, state, &Event::Written);
        assert_eq!(next.state, UninstallState::Finished(UninstallOutcome::Aborted));
        assert_eq!(next.report, Report::Failure(Cause::UnexpectedEvent));
        assert_eq!(next.command, Command::Finish);
    }
    let done = UninstallState::Finished(UninstallOutcome::Completed);
    let next = uninstall::step(PlatformKind::Linux, done, &Event::Written);
    assert_eq!(next.state, done);
    assert_eq!(next.report, Report::Nothing);
}

#[test]
fn a_second_removal_finds_nothing() {
    let config = config(PlatformKind::Linux);
    let mut host = Host::new();
    host.files.insert(config.env_file.clone(), "MONGO_URI=x\n".to_string());
    host.files.insert(config.descriptor_path.clone(), "[Unit]".to_string());
    for command in [Command::RemoveCredentials, Command::RemoveDescriptor] {
        let mut answers = Vec::new();
        for _ in 0..2 {
            match host.carry_out(&config, command, None) {
                Event::Removal { result } => answers.push(removed(result)),
                _ => unreachable!(),
            }
        }
        assert_eq!(answers, vec![true, false]);
    }
    assert!(host.files.is_empty());
}

#[test]
fn the_milestones_are_passed_in_order() {
    let config = config(PlatformKind::Linux);
    let mut host = Host::answering(URI);
    let mut marks = vec![];
    let mut step: Step = install::start();
    while install::outcome(step.state).is_none() {
        let event = host.carry_out(&config, step.command, step.content);
        step = install::step(&config, step.state, &event);
        let mark = install::reached(step.state);
        if marks.last() != Some(&mark) {
            marks.push(mark);
        }
    }
    assert_eq!(
        marks,
        vec![
            Milestone::Start,
            Milestone::SecretsWritten,
            Milestone::Built,
            Milestone::Registered
        ]
    );
    assert_eq!(install::reached(InstallState::AwaitingUri), Milestone::Start);
    assert_eq!(
        install::reached(InstallState::Finished(InstallOutcome::FailedRolledBack(Stage::Build))),
        Milestone::Failed
    );
    assert_eq!(
        install::reached(InstallState::RemovingDescriptor {
            stage: Stage::Registration,
            clean: true
        }),
        Milestone::Failed
    );
}
