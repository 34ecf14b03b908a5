//! The install orchestrator: a state machine that goes from the operator's
//! URI to a registered service, one command at a time, and that removes
//! what it has written as soon as a step fails.
//!
//! The steps are: write the credentials, build the application, register
//! the service. A step that fails is reported with its cause, the files
//! written so far are removed, and the run ends; nothing is tried twice.
//! The rollback removes files and nothing else: a unit that was enabled
//! before its start failed stays known to the service manager. A program
//! that cannot be started at all ends the run at once, and what was
//! written stays in place for the uninstaller. One installation runs at a
//! time: nothing is locked.

use vstd::prelude::*;
use vstd::string::*;
use crate::builder::{judge, verdict, BuildStage};
use crate::cleanup::absent_after;
use crate::credentials::{
    parse_entries, render_entries, valid_value, CredentialError, CredentialSet,
};
use crate::host::{effect, Artifacts};
use crate::outcome::{InstallOutcome, PartialReason, Stage};
use crate::platform::PlatformKind;
use crate::protocol::{Artifact, Command, Event, ProcessResult, RemovalResult};
use crate::report::{Cause, Report};
use crate::secret::{is_session_secret, session_secret};
use crate::service::{RegistrationError, RegistrationStage, ServiceConfig};
use crate::registrar::{descriptor, descriptor_text, inputs_ok};

verus! {

/// The key under which the database URI is stored.
pub const MONGO_URI_KEY: &'static str = "MONGO_URI";

/// The key under which the session secret is stored.
pub const SESSION_PASSWORD_KEY: &'static str = "SESSION_PASSWORD";

/// The environment file of an installation: the URI, then the secret.
pub open spec fn credentials_text(uri: Seq<char>, secret: Seq<char>) -> Seq<char> {
    render_entries(seq![(MONGO_URI_KEY@, uri), (SESSION_PASSWORD_KEY@, secret)])
}

/// The text of the environment file for `uri` and `secret`. Either of
/// them is refused where it holds a character that the file cannot hold.
pub fn provision(uri: &str, secret: &str) -> (text: Result<String, CredentialError>)
    ensures
        match text {
            Ok(t) => valid_value(uri@) && valid_value(secret@) && t@ == credentials_text(
                uri@,
                secret@,
            ),
            Err(e) => !(valid_value(uri@) && valid_value(secret@)) && e
                == CredentialError::InvalidValue,
        },
{
    proof {
        reveal_strlit("MONGO_URI");
        reveal_strlit("SESSION_PASSWORD");
    }
    let mut set = CredentialSet::new();
    match set.insert(MONGO_URI_KEY, uri) {
        Ok(()) => {},
        Err(_) => {
            return Err(CredentialError::InvalidValue);
        },
    }
    assert(set@ =~= seq![(MONGO_URI_KEY@, uri@)]);
    match set.insert(SESSION_PASSWORD_KEY, secret) {
        Ok(()) => {},
        Err(_) => {
            assert(MONGO_URI_KEY@.len() != SESSION_PASSWORD_KEY@.len());
            return Err(CredentialError::InvalidValue);
        },
    }
    assert(set@ =~= seq![(MONGO_URI_KEY@, uri@), (SESSION_PASSWORD_KEY@, secret@)]);
    Ok(set.render())
}

/// Where an installation stands. Each state but the last waits for the
/// answer to one command.
#[derive(Clone, Copy, PartialEq, Eq, Structural, Debug)]
pub enum InstallState {
    /// Nothing is written yet; the operator is asked for the URI.
    AwaitingUri,
    /// The environment file is being written.
    WritingCredentials,
    /// The credentials are written; the dependencies are being installed.
    InstallingDependencies,
    /// The application is being built.
    Building,
    /// The application is built; the registrar reads the credentials back.
    ReadingCredentials,
    /// The descriptor is being written.
    WritingDescriptor,
    /// systemd is reading its units again.
    ReloadingManager,
    /// The unit is being enabled.
    EnablingService,
    /// The unit is being started.
    StartingService,
    /// The generated script is running.
    RunningScript,
    /// `stage` failed and the environment file is being removed. The
    /// descriptor follows if `descriptor` holds. `clean` holds as long as no
    /// removal of this rollback has failed.
    RemovingCredentials { stage: Stage, descriptor: bool, clean: bool },
    /// `stage` failed and the descriptor is being removed.
    RemovingDescriptor { stage: Stage, clean: bool },
    /// The installation has ended.
    Finished(InstallOutcome),
}

/// The result of one step: the new state, the news for the operator, the
/// command to carry out next, and for a command that writes a file the
/// text to write.
#[derive(Debug)]
pub struct Step {
    pub state: InstallState,
    pub report: Report,
    pub command: Command,
    pub content: Option<String>,
}

/// The state in which an installation starts.
pub open spec fn initial() -> InstallState {
    InstallState::AwaitingUri
}

/// The command whose answer `state` waits for.
pub open spec fn pending(state: InstallState) -> Command {
    match state {
        InstallState::AwaitingUri => Command::AskUri,
        InstallState::WritingCredentials => Command::WriteCredentials,
        InstallState::InstallingDependencies => Command::InstallDependencies,
        InstallState::Building => Command::BuildApplication,
        InstallState::ReadingCredentials => Command::ReadCredentials,
        InstallState::WritingDescriptor => Command::WriteDescriptor,
        InstallState::ReloadingManager => Command::ReloadManager,
        InstallState::EnablingService => Command::EnableService,
        InstallState::StartingService => Command::StartService,
        InstallState::RunningScript => Command::RunScript,
        InstallState::RemovingCredentials { .. } => Command::RemoveCredentials,
        InstallState::RemovingDescriptor { .. } => Command::RemoveDescriptor,
        InstallState::Finished(_) => Command::Finish,
    }
}

/// The step of the installation that `state` belongs to.
pub open spec fn stage_of(state: InstallState) -> Stage {
    match state {
        InstallState::AwaitingUri | InstallState::WritingCredentials => Stage::Secrets,
        InstallState::InstallingDependencies | InstallState::Building => Stage::Build,
        InstallState::RemovingCredentials { stage, .. } => stage,
        InstallState::RemovingDescriptor { stage, .. } => stage,
        InstallState::Finished(InstallOutcome::FailedRolledBack(stage)) => stage,
        InstallState::Finished(InstallOutcome::FailedPartial(stage, _)) => stage,
        _ => Stage::Registration,
    }
}

/// The start of the rollback after a failure of `stage`: the environment
/// file goes first, then the descriptor if one may have been written.
pub open spec fn rollback(stage: Stage, descriptor: bool) -> InstallState {
    InstallState::RemovingCredentials { stage, descriptor, clean: true }
}

/// The end of a rollback after a failure of `stage`.
pub open spec fn closing(stage: Stage, clean: bool) -> InstallState {
    if clean {
        InstallState::Finished(InstallOutcome::FailedRolledBack(stage))
    } else {
        InstallState::Finished(
            InstallOutcome::FailedPartial(stage, PartialReason::CleanupIncomplete),
        )
    }
}

/// The end of an installation whose driver broke the protocol.
pub open spec fn aborted(state: InstallState) -> (InstallState, Report) {
    (
        InstallState::Finished(
            InstallOutcome::FailedPartial(stage_of(state), PartialReason::UnexpectedEvent),
        ),
        Report::Failure(Cause::UnexpectedEvent),
    )
}

/// A failed registration step.
pub open spec fn registration_failure(stage: RegistrationStage) -> Report {
    Report::Failure(Cause::Registration(RegistrationError { stage }))
}

/// What follows a successful build: on an unsupported platform the
/// rollback, without any registrar being tried; on Linux the unit file;
/// elsewhere the registrar first reads the credentials back.
pub open spec fn after_build(config: ServiceConfig) -> (InstallState, Report) {
    match config.platform {
        PlatformKind::Unsupported => (
            rollback(Stage::Registration, false),
            Report::Failure(Cause::UnsupportedPlatform),
        ),
        PlatformKind::Linux => if inputs_ok(config) {
            (InstallState::WritingDescriptor, Report::Progress)
        } else {
            (rollback(Stage::Registration, false), registration_failure(RegistrationStage::Inputs))
        },
        _ => (InstallState::ReadingCredentials, Report::Progress),
    }
}

/// What follows the end of a subprocess of the registration: the state
/// `then` where it succeeded; the end without rollback where it could not
/// be started; else the rollback, descriptor included.
pub open spec fn after_registration_step(
    result: ProcessResult,
    step: RegistrationStage,
    then: InstallState,
) -> (InstallState, Report) {
    if result.succeeded() {
        (then, Report::Progress)
    } else if result == ProcessResult::LaunchFailed {
        (
            InstallState::Finished(
                InstallOutcome::FailedPartial(Stage::Registration, PartialReason::LaunchFailure),
            ),
            registration_failure(step),
        )
    } else {
        (rollback(Stage::Registration, true), registration_failure(step))
    }
}

/// What follows the end of a build step: the state `then` where it
/// succeeded; the end without rollback where the tool could not be
/// started; else the rollback of the credentials.
pub open spec fn after_build_step(
    config: ServiceConfig,
    result: ProcessResult,
    step: BuildStage,
) -> (InstallState, Report) {
    match verdict(step, result) {
        Ok(()) => match step {
            BuildStage::Install => (InstallState::Building, Report::Progress),
            BuildStage::Build => after_build(config),
        },
        Err(e) => if e.spec_is_fatal() {
            (
                InstallState::Finished(
                    InstallOutcome::FailedPartial(Stage::Build, PartialReason::LaunchFailure),
                ),
                Report::Failure(Cause::Build(e)),
            )
        } else {
            (rollback(Stage::Build, false), Report::Failure(Cause::Build(e)))
        },
    }
}

/// The state that follows `state` when the driver answers `event`, and
/// the news of the step.
pub open spec fn transition(config: ServiceConfig, state: InstallState, event: Event) -> (
    InstallState,
    Report,
) {
    match state {
        InstallState::AwaitingUri => match event {
            Event::UriAnswer { uri, confirmed } => if !confirmed {
                (InstallState::AwaitingUri, Report::Retry)
            } else if valid_value(uri@) {
                (InstallState::WritingCredentials, Report::Progress)
            } else {
                (rollback(Stage::Secrets, false), Report::Failure(Cause::InvalidUri))
            },
            _ => aborted(state),
        },
        InstallState::WritingCredentials => match event {
            Event::Written => (InstallState::InstallingDependencies, Report::Progress),
            Event::WriteFailed => (
                rollback(Stage::Secrets, false),
                Report::Failure(Cause::CredentialsNotWritten),
            ),
            _ => aborted(state),
        },
        InstallState::InstallingDependencies => match event {
            Event::Process { result } => after_build_step(config, result, BuildStage::Install),
            _ => aborted(state),
        },
        InstallState::Building => match event {
            Event::Process { result } => after_build_step(config, result, BuildStage::Build),
            _ => aborted(state),
        },
        InstallState::ReadingCredentials => match event {
            Event::CredentialsRead { text } => if parse_entries(text@) is None {
                (
                    rollback(Stage::Registration, false),
                    registration_failure(RegistrationStage::Credentials),
                )
            } else if inputs_ok(config) {
                (InstallState::WritingDescriptor, Report::Progress)
            } else {
                (
                    rollback(Stage::Registration, false),
                    registration_failure(RegistrationStage::Inputs),
                )
            },
            Event::ReadFailed => (
                rollback(Stage::Registration, false),
                registration_failure(RegistrationStage::Credentials),
            ),
            _ => aborted(state),
        },
        InstallState::WritingDescriptor => match event {
            Event::Written => match config.platform {
                PlatformKind::Linux => (InstallState::ReloadingManager, Report::Progress),
                PlatformKind::Windows => (InstallState::RunningScript, Report::Progress),
                PlatformKind::MacOS => (
                    InstallState::Finished(InstallOutcome::Completed),
                    Report::Progress,
                ),
                PlatformKind::Unsupported => aborted(state),
            },
            Event::WriteFailed => (
                rollback(Stage::Registration, true),
                registration_failure(RegistrationStage::Descriptor),
            ),
            _ => aborted(state),
        },
        InstallState::ReloadingManager => match event {
            Event::Process { result } => after_registration_step(
                result,
                RegistrationStage::Reload,
                InstallState::EnablingService,
            ),
            _ => aborted(state),
        },
        InstallState::EnablingService => match event {
            Event::Process { result } => after_registration_step(
                result,
                RegistrationStage::Enable,
                InstallState::StartingService,
            ),
            _ => aborted(state),
        },
        InstallState::StartingService => match event {
            Event::Process { result } => after_registration_step(
                result,
                RegistrationStage::Start,
                InstallState::Finished(InstallOutcome::Completed),
            ),
            _ => aborted(state),
        },
        InstallState::RunningScript => match event {
            Event::Process { result } => after_registration_step(
                result,
                RegistrationStage::Script,
                InstallState::Finished(InstallOutcome::Completed),
            ),
            _ => aborted(state),
        },
        InstallState::RemovingCredentials { stage, descriptor, clean } => match event {
            Event::Removal { result } => {
                let still_clean = clean && result != RemovalResult::Failed;
                (
                    if descriptor {
                        InstallState::RemovingDescriptor { stage, clean: still_clean }
                    } else {
                        closing(stage, still_clean)
                    },
                    Report::Cleanup { artifact: Artifact::Credentials, result },
                )
            },
            _ => aborted(state),
        },
        InstallState::RemovingDescriptor { stage, clean } => match event {
            Event::Removal { result } => (
                closing(stage, clean && result != RemovalResult::Failed),
                Report::Cleanup { artifact: Artifact::Descriptor, result },
            ),
            _ => aborted(state),
        },
        InstallState::Finished(_) => (state, Report::Nothing),
    }
}

/// The state that follows `state` when the driver answers `event`.
pub open spec fn next_state(config: ServiceConfig, state: InstallState, event: Event) -> InstallState {
    transition(config, state, event).0
}

/// What the step from `state` on `event` hands to the driver to write,
/// where `secret` is the session secret that it generated: the
/// environment file for a URI that was just accepted, the descriptor
/// where the registrar has all it needs, and else nothing.
pub open spec fn content_of(
    config: ServiceConfig,
    state: InstallState,
    event: Event,
    secret: Seq<char>,
) -> Option<Seq<char>> {
    match next_state(config, state, event) {
        InstallState::WritingCredentials => match event {
            Event::UriAnswer { uri, .. } => Some(credentials_text(uri@, secret)),
            _ => None,
        },
        InstallState::WritingDescriptor => match event {
            Event::CredentialsRead { text } => match parse_entries(text@) {
                Some(entries) => Some(descriptor_text(config, entries)),
                None => None,
            },
            _ => Some(descriptor_text(config, Seq::empty())),
        },
        _ => None,
    }
}

/// The view of what a step hands over to be written.
pub open spec fn content_view(content: Option<String>) -> Option<Seq<char>> {
    match content {
        Some(text) => Some(text@),
        None => None,
    }
}

/// The command whose answer `state` waits for.
pub fn pending_command(state: InstallState) -> (command: Command)
    ensures
        command == pending(state),
{
    match state {
        InstallState::AwaitingUri => Command::AskUri,
        InstallState::WritingCredentials => Command::WriteCredentials,
        InstallState::InstallingDependencies => Command::InstallDependencies,
        InstallState::Building => Command::BuildApplication,
        InstallState::ReadingCredentials => Command::ReadCredentials,
        InstallState::WritingDescriptor => Command::WriteDescriptor,
        InstallState::ReloadingManager => Command::ReloadManager,
        InstallState::EnablingService => Command::EnableService,
        InstallState::StartingService => Command::StartService,
        InstallState::RunningScript => Command::RunScript,
        InstallState::RemovingCredentials { .. } => Command::RemoveCredentials,
        InstallState::RemovingDescriptor { .. } => Command::RemoveDescriptor,
        InstallState::Finished(_) => Command::Finish,
    }
}

/// The step of the installation that `state` belongs to.
pub fn stage(state: InstallState) -> (stage: Stage)
    ensures
        stage == stage_of(state),
{
    match state {
        InstallState::AwaitingUri | InstallState::WritingCredentials => Stage::Secrets,
        InstallState::InstallingDependencies | InstallState::Building => Stage::Build,
        InstallState::RemovingCredentials { stage, .. } => stage,
        InstallState::RemovingDescriptor { stage, .. } => stage,
        InstallState::Finished(InstallOutcome::FailedRolledBack(stage)) => stage,
        InstallState::Finished(InstallOutcome::FailedPartial(stage, _)) => stage,
        _ => Stage::Registration,
    }
}

/// The outcome, once the installation has ended.
pub fn outcome(state: InstallState) -> (outcome: Option<InstallOutcome>)
    ensures
        outcome == match state {
            InstallState::Finished(o) => Some(o),
            _ => None::<InstallOutcome>,
        },
{
    match state {
        InstallState::Finished(o) => Some(o),
        _ => None,
    }
}

/// The first step of an installation: ask for the URI.
pub fn start() -> (first: Step)
    ensures
        first.state == initial(),
        first.report == Report::Progress,
        first.command == pending(initial()),
        first.content is None,
{
    go(InstallState::AwaitingUri, Report::Progress)
}

fn go(state: InstallState, report: Report) -> (step: Step)
    ensures
        step.state == state,
        step.report == report,
        step.command == pending(state),
        step.content is None,
{
    Step { state, report, command: pending_command(state), content: None }
}

fn go_writing(state: InstallState, text: String) -> (step: Step)
    ensures
        step.state == state,
        step.report == Report::Progress,
        step.command == pending(state),
        step.content == Some(text),
{
    Step { state, report: Report::Progress, command: pending_command(state), content: Some(text) }
}

fn roll_back(stage: Stage, descriptor: bool, cause: Cause) -> (step: Step)
    ensures
        step.state == rollback(stage, descriptor),
        step.report == Report::Failure(cause),
        step.command == Command::RemoveCredentials,
        step.content is None,
{
    go(InstallState::RemovingCredentials { stage, descriptor, clean: true }, Report::Failure(cause))
}

fn close(stage: Stage, clean: bool) -> (state: InstallState)
    ensures
        state == closing(stage, clean),
{
    if clean {
        InstallState::Finished(InstallOutcome::FailedRolledBack(stage))
    } else {
        InstallState::Finished(
            InstallOutcome::FailedPartial(stage, PartialReason::CleanupIncomplete),
        )
    }
}

fn abort(state: InstallState) -> (step: Step)
    ensures
        (step.state, step.report) == aborted(state),
        step.command == Command::Finish,
        step.content is None,
{
    go(
        InstallState::Finished(
            InstallOutcome::FailedPartial(stage(state), PartialReason::UnexpectedEvent),
        ),
        Report::Failure(Cause::UnexpectedEvent),
    )
}

fn registration_cause(stage: RegistrationStage) -> (cause: Cause)
    ensures
        Report::Failure(cause) == registration_failure(stage),
{
    Cause::Registration(RegistrationError { stage })
}

fn on_uri_answer(config: &ServiceConfig, uri: &String, confirmed: bool) -> (next: Step)
    ensures
        (next.state, next.report) == transition(
            *config,
            InstallState::AwaitingUri,
            Event::UriAnswer { uri: *uri, confirmed },
        ),
        next.command == pending(next.state),
        match next.state {
            InstallState::WritingCredentials => exists|secret: Seq<char>|
                is_session_secret(secret) && content_view(next.content) == Some(
                    #[trigger] credentials_text(uri@, secret),
                ),
            _ => next.content is None,
        },
{
    if !confirmed {
        return go(InstallState::AwaitingUri, Report::Retry);
    }
    let secret = session_secret();
    match provision(uri.as_str(), secret.as_str()) {
        Ok(text) => {
            assert(content_view(Some(text)) == Some(credentials_text(uri@, secret@)));
            go_writing(InstallState::WritingCredentials, text)
        },
        Err(_) => roll_back(Stage::Secrets, false, Cause::InvalidUri),
    }
}

fn on_build_step(config: &ServiceConfig, result: ProcessResult, step: BuildStage) -> (next: Step)
    ensures
        (next.state, next.report) == after_build_step(*config, result, step),
        next.command == pending(next.state),
        match next.state {
            InstallState::WritingDescriptor => content_view(next.content) == Some(
                descriptor_text(*config, Seq::empty()),
            ),
            _ => next.content is None,
        },
{
    match judge(step, result) {
        Ok(()) => match step {
            BuildStage::Install => go(InstallState::Building, Report::Progress),
            BuildStage::Build => match config.platform {
                PlatformKind::Unsupported => roll_back(
                    Stage::Registration,
                    false,
                    Cause::UnsupportedPlatform,
                ),
                PlatformKind::Linux => {
                    let none = CredentialSet::new();
                    match descriptor(config, &none) {
                        Ok(text) => go_writing(InstallState::WritingDescriptor, text),
                        Err(e) => roll_back(Stage::Registration, false, Cause::Registration(e)),
                    }
                },
                _ => go(InstallState::ReadingCredentials, Report::Progress),
            },
        },
        Err(e) => if e.is_fatal() {
            go(
                InstallState::Finished(
                    InstallOutcome::FailedPartial(Stage::Build, PartialReason::LaunchFailure),
                ),
                Report::Failure(Cause::Build(e)),
            )
        } else {
            roll_back(Stage::Build, false, Cause::Build(e))
        },
    }
}

fn on_credentials_read(config: &ServiceConfig, text: &String) -> (next: Step)
    ensures
        (next.state, next.report) == transition(
            *config,
            InstallState::ReadingCredentials,
            Event::CredentialsRead { text: *text },
        ),
        next.command == pending(next.state),
        match next.state {
            InstallState::WritingDescriptor => content_view(next.content) == Some(
                descriptor_text(*config, parse_entries(text@).unwrap()),
            ),
            _ => next.content is None,
        },
{
    match CredentialSet::parse(text.as_str()) {
        Ok(credentials) => match descriptor(config, &credentials) {
            Ok(text) => go_writing(InstallState::WritingDescriptor, text),
            Err(e) => roll_back(Stage::Registration, false, Cause::Registration(e)),
        },
        Err(_) => roll_back(
            Stage::Registration,
            false,
            registration_cause(RegistrationStage::Credentials),
        ),
    }
}

fn on_registration_step(result: ProcessResult, step: RegistrationStage, then: InstallState) -> (next:
    Step)
    ensures
        (next.state, next.report) == after_registration_step(result, step, then),
        next.command == pending(next.state),
        next.content is None,
{
    if result.is_success() {
        go(then, Report::Progress)
    } else {
        match result {
            ProcessResult::LaunchFailed => go(
                InstallState::Finished(
                    InstallOutcome::FailedPartial(
                        Stage::Registration,
                        PartialReason::LaunchFailure,
                    ),
                ),
                Report::Failure(registration_cause(step)),
            ),
            _ => roll_back(Stage::Registration, true, registration_cause(step)),
        }
    }
}

/// One step of the installation: takes the driver's answer to the
/// pending command and names the next one. The only thing that is not
/// fixed by the arguments is the session secret, which is generated when a
/// URI is accepted.
pub fn step(config: &ServiceConfig, state: InstallState, event: &Event) -> (next: Step)
    ensures
        (next.state, next.report) == transition(*config, state, *event),
        next.command == pending(next.state),
        match next.state {
            InstallState::WritingCredentials => exists|secret: Seq<char>|
                is_session_secret(secret) && content_view(next.content) == #[trigger] content_of(
                    *config,
                    state,
                    *event,
                    secret,
                ),
            _ => content_view(next.content) == content_of(*config, state, *event, Seq::empty()),
        },
{
    match state {
        InstallState::AwaitingUri => match event {
            Event::UriAnswer { uri, confirmed } => {
                let next = on_uri_answer(config, uri, *confirmed);
                proof {
                    if next.state == InstallState::WritingCredentials {
                        let secret = choose|secret: Seq<char>|
                            is_session_secret(secret) && content_view(next.content) == Some(
                                #[trigger] credentials_text(uri@, secret),
                            );
                        assert(content_view(next.content) == content_of(
                            *config,
                            state,
                            *event,
                            secret,
                        ));
                    }
                }
                next
            },
            _ => abort(state),
        },
        InstallState::WritingCredentials => match event {
            Event::Written => go(InstallState::InstallingDependencies, Report::Progress),
            Event::WriteFailed => roll_back(Stage::Secrets, false, Cause::CredentialsNotWritten),
            _ => abort(state),
        },
        InstallState::InstallingDependencies => match event {
            Event::Process { result } => on_build_step(config, *result, BuildStage::Install),
            _ => abort(state),
        },
        InstallState::Building => match event {
            Event::Process { result } => on_build_step(config, *result, BuildStage::Build),
            _ => abort(state),
        },
        InstallState::ReadingCredentials => match event {
            Event::CredentialsRead { text } => on_credentials_read(config, text),
            Event::ReadFailed => roll_back(
                Stage::Registration,
                false,
                registration_cause(RegistrationStage::Credentials),
            ),
            _ => abort(state),
        },
        InstallState::WritingDescriptor => match event {
            Event::Written => match config.platform {
                PlatformKind::Linux => go(InstallState::ReloadingManager, Report::Progress),
                PlatformKind::Windows => go(InstallState::RunningScript, Report::Progress),
                PlatformKind::MacOS => go(
                    InstallState::Finished(InstallOutcome::Completed),
                    Report::Progress,
                ),
                PlatformKind::Unsupported => abort(state),
            },
            Event::WriteFailed => roll_back(
                Stage::Registration,
                true,
                registration_cause(RegistrationStage::Descriptor),
            ),
            _ => abort(state),
        },
        InstallState::ReloadingManager => match event {
            Event::Process { result } => on_registration_step(
                *result,
                RegistrationStage::Reload,
                InstallState::EnablingService,
            ),
            _ => abort(state),
        },
        InstallState::EnablingService => match event {
            Event::Process { result } => on_registration_step(
                *result,
                RegistrationStage::Enable,
                InstallState::StartingService,
            ),
            _ => abort(state),
        },
        InstallState::StartingService => match event {
            Event::Process { result } => on_registration_step(
                *result,
                RegistrationStage::Start,
                InstallState::Finished(InstallOutcome::Completed),
            ),
            _ => abort(state),
        },
        InstallState::RunningScript => match event {
            Event::Process { result } => on_registration_step(
                *result,
                RegistrationStage::Script,
                InstallState::Finished(InstallOutcome::Completed),
            ),
            _ => abort(state),
        },
        InstallState::RemovingCredentials { stage, descriptor, clean } => match event {
            Event::Removal { result } => {
                let still_clean = clean && absent_after(*result);
                let report = Report::Cleanup { artifact: Artifact::Credentials, result: *result };
                if descriptor {
                    go(InstallState::RemovingDescriptor { stage, clean: still_clean }, report)
                } else {
                    go(close(stage, still_clean), report)
                }
            },
            _ => abort(state),
        },
        InstallState::RemovingDescriptor { stage, clean } => match event {
            Event::Removal { result } => go(
                close(stage, clean && absent_after(*result)),
                Report::Cleanup { artifact: Artifact::Descriptor, result: *result },
            ),
            _ => abort(state),
        },
        InstallState::Finished(_) => go(state, Report::Nothing),
    }
}

/// The state after the driver has answered with `events`, one after the
/// other, each to the command that was pending.
pub open spec fn run(config: ServiceConfig, state: InstallState, events: Seq<Event>) -> InstallState
    decreases events.len(),
{
    if events.len() == 0 {
        state
    } else {
        run(config, next_state(config, state, events[0]), events.drop_first())
    }
}

/// What may be on the disk after the driver has carried out the pending
/// commands and answered with `events`, on a host that had `host`.
pub open spec fn host_after(
    config: ServiceConfig,
    state: InstallState,
    host: Artifacts,
    events: Seq<Event>,
) -> Artifacts
    decreases events.len(),
{
    if events.len() == 0 {
        host
    } else {
        host_after(
            config,
            next_state(config, state, events[0]),
            effect(pending(state), events[0], host),
            events.drop_first(),
        )
    }
}

/// Whether `state` stands in the registration, or in a rollback that
/// removes a descriptor.
pub open spec fn in_registration(state: InstallState) -> bool {
    match state {
        InstallState::ReadingCredentials
        | InstallState::WritingDescriptor
        | InstallState::ReloadingManager
        | InstallState::EnablingService
        | InstallState::StartingService
        | InstallState::RunningScript
        | InstallState::RemovingDescriptor { .. } => true,
        InstallState::RemovingCredentials { descriptor, .. } => descriptor,
        _ => false,
    }
}

/// What the states know about the disk of a host that had a descriptor or
/// not (`had_descriptor`) when the installation began. Before the
/// descriptor is written there is none but the one that was there. A
/// rollback that has not failed so far has removed what it was to remove.
/// After a rollback the environment file is gone, and so is the descriptor
/// unless it was there before.
spec fn consistent(state: InstallState, host: Artifacts, had_descriptor: bool) -> bool {
    match state {
        InstallState::AwaitingUri
        | InstallState::WritingCredentials
        | InstallState::InstallingDependencies
        | InstallState::Building
        | InstallState::ReadingCredentials => host.descriptor ==> had_descriptor,
        InstallState::RemovingCredentials { descriptor, clean, .. } => clean && !descriptor ==> (
        host.descriptor ==> had_descriptor),
        InstallState::RemovingDescriptor { clean, .. } => clean ==> !host.credentials,
        InstallState::Finished(InstallOutcome::FailedRolledBack(_)) => !host.credentials && (
        host.descriptor ==> had_descriptor),
        _ => true,
    }
}

proof fn lemma_step_is_consistent(
    config: ServiceConfig,
    state: InstallState,
    host: Artifacts,
    had_descriptor: bool,
    event: Event,
)
    requires
        consistent(state, host, had_descriptor),
    ensures
        consistent(
            next_state(config, state, event),
            effect(pending(state), event, host),
            had_descriptor,
        ),
{
}

proof fn lemma_run_is_consistent(
    config: ServiceConfig,
    state: InstallState,
    host: Artifacts,
    had_descriptor: bool,
    events: Seq<Event>,
)
    requires
        consistent(state, host, had_descriptor),
    ensures
        consistent(
            run(config, state, events),
            host_after(config, state, host, events),
            had_descriptor,
        ),
    decreases events.len(),
{
    if events.len() > 0 {
        lemma_step_is_consistent(config, state, host, had_descriptor, events[0]);
        lemma_run_is_consistent(
            config,
            next_state(config, state, events[0]),
            effect(pending(state), events[0], host),
            had_descriptor,
            events.drop_first(),
        );
    }
}

/// An installation that ends rolled back leaves nothing of its own: on
/// whatever step it failed and whatever the driver answered, the
/// environment file is gone, and no descriptor is there that was not there
/// before the installation began.
pub proof fn lemma_rolled_back_leaves_nothing(
    config: ServiceConfig,
    host: Artifacts,
    events: Seq<Event>,
)
    requires
        run(config, initial(), events) matches InstallState::Finished(
            InstallOutcome::FailedRolledBack(_),
        ),
    ensures
        !host_after(config, initial(), host, events).credentials,
        host_after(config, initial(), host, events).descriptor ==> host.descriptor,
        host == Artifacts::none() ==> host_after(config, initial(), host, events)
            == Artifacts::none(),
{
    lemma_run_is_consistent(config, initial(), host, host.descriptor, events);
}

proof fn lemma_no_registrar_from(config: ServiceConfig, state: InstallState, events: Seq<Event>)
    requires
        config.platform == PlatformKind::Unsupported,
        !in_registration(state),
        state != InstallState::Finished(InstallOutcome::Completed),
    ensures
        !in_registration(run(config, state, events)),
        run(config, state, events) != InstallState::Finished(InstallOutcome::Completed),
    decreases events.len(),
{
    if events.len() > 0 {
        lemma_no_registrar_from(
            config,
            next_state(config, state, events[0]),
            events.drop_first(),
        );
    }
}

/// On a platform without a known service manager no registrar is ever
/// tried: whatever the driver answers, the installation neither reads the
/// credentials back nor writes, runs or removes a descriptor, and it does
/// not complete.
pub proof fn lemma_unsupported_platform_tries_no_registrar(
    config: ServiceConfig,
    events: Seq<Event>,
)
    requires
        config.platform == PlatformKind::Unsupported,
    ensures
        !in_registration(run(config, initial(), events)),
        run(config, initial(), events) != InstallState::Finished(InstallOutcome::Completed),
{
    lemma_no_registrar_from(config, initial(), events);
}

/// An installation that has ended stays as it ended.
pub proof fn lemma_finished_is_final(
    config: ServiceConfig,
    outcome: InstallOutcome,
    events: Seq<Event>,
)
    ensures
        run(config, InstallState::Finished(outcome), events) == InstallState::Finished(outcome),
    decreases events.len(),
{
    if events.len() > 0 {
        lemma_finished_is_final(config, outcome, events.drop_first());
    }
}

/// A failure is never retried: once a rollback has begun, the
/// installation ends with the second answer at the latest, and never as
/// complete.
pub proof fn lemma_rollback_ends_the_run(
    config: ServiceConfig,
    stage: Stage,
    descriptor: bool,
    events: Seq<Event>,
)
    requires
        events.len() >= 2,
    ensures
        run(config, rollback(stage, descriptor), events) matches InstallState::Finished(o) && o
            != InstallOutcome::Completed,
{
    let first = next_state(config, rollback(stage, descriptor), events[0]);
    let rest = events.drop_first();
    let second = next_state(config, first, rest[0]);
    assert(second matches InstallState::Finished(o) && o != InstallOutcome::Completed);
    assert(run(config, rollback(stage, descriptor), events) == run(config, first, rest));
    assert(run(config, first, rest) == run(config, second, rest.drop_first()));
    match second {
        InstallState::Finished(o) => lemma_finished_is_final(config, o, rest.drop_first()),
        _ => {},
    }
}

/// Whether `state` stands in a rollback that removes the descriptor.
pub open spec fn removes_descriptor(state: InstallState) -> bool {
    match state {
        InstallState::RemovingDescriptor { .. } => true,
        InstallState::RemovingCredentials { descriptor, .. } => descriptor,
        _ => false,
    }
}

proof fn lemma_descriptor_removal_from(
    config: ServiceConfig,
    state: InstallState,
    events: Seq<Event>,
)
    requires
        removes_descriptor(state) ==> stage_of(state) == Stage::Registration,
    ensures
        removes_descriptor(run(config, state, events)) ==> stage_of(run(config, state, events))
            == Stage::Registration,
    decreases events.len(),
{
    if events.len() > 0 {
        lemma_descriptor_removal_from(
            config,
            next_state(config, state, events[0]),
            events.drop_first(),
        );
    }
}

/// A rollback removes what the failed step may have written and no more:
/// the environment file in every case, the descriptor only after a failed
/// registration.
pub proof fn lemma_descriptor_goes_after_a_failed_registration_only(
    config: ServiceConfig,
    events: Seq<Event>,
)
    ensures
        removes_descriptor(run(config, initial(), events)) ==> stage_of(
            run(config, initial(), events),
        ) == Stage::Registration,
{
    lemma_descriptor_removal_from(config, initial(), events);
}

/// The marks along the way of an installation.
#[derive(Clone, Copy, PartialEq, Eq, Structural, Debug)]
pub enum Milestone {
    /// Nothing is known to be written.
    Start,
    /// The environment file is written.
    SecretsWritten,
    /// The application is built.
    Built,
    /// The service is registered: the installation is complete.
    Registered,
    /// A step has failed.
    Failed,
}

/// The last mark that `state` has passed.
pub open spec fn milestone(state: InstallState) -> Milestone {
    match state {
        InstallState::AwaitingUri | InstallState::WritingCredentials => Milestone::Start,
        InstallState::InstallingDependencies | InstallState::Building => Milestone::SecretsWritten,
        InstallState::ReadingCredentials
        | InstallState::WritingDescriptor
        | InstallState::ReloadingManager
        | InstallState::EnablingService
        | InstallState::StartingService
        | InstallState::RunningScript => Milestone::Built,
        InstallState::Finished(InstallOutcome::Completed) => Milestone::Registered,
        _ => Milestone::Failed,
    }
}

/// The mark that comes after `mark`.
pub open spec fn following(mark: Milestone) -> Milestone {
    match mark {
        Milestone::Start => Milestone::SecretsWritten,
        Milestone::SecretsWritten => Milestone::Built,
        Milestone::Built => Milestone::Registered,
        Milestone::Registered => Milestone::Registered,
        Milestone::Failed => Milestone::Failed,
    }
}

/// The last mark that `state` has passed.
pub fn reached(state: InstallState) -> (mark: Milestone)
    ensures
        mark == milestone(state),
{
    match state {
        InstallState::AwaitingUri | InstallState::WritingCredentials => Milestone::Start,
        InstallState::InstallingDependencies | InstallState::Building => Milestone::SecretsWritten,
        InstallState::ReadingCredentials
        | InstallState::WritingDescriptor
        | InstallState::ReloadingManager
        | InstallState::EnablingService
        | InstallState::StartingService
        | InstallState::RunningScript => Milestone::Built,
        InstallState::Finished(InstallOutcome::Completed) => Milestone::Registered,
        _ => Milestone::Failed,
    }
}

/// The steps are taken strictly one after the other: a step stays at its
/// mark, passes the next one, or fails. None is skipped, and after a
/// failure none is taken again.
pub proof fn lemma_no_step_is_skipped(config: ServiceConfig, state: InstallState, event: Event)
    ensures
        ({
            let next = milestone(next_state(config, state, event));
            next == milestone(state) || next == following(milestone(state)) || next
                == Milestone::Failed
        }),
        milestone(state) == Milestone::Failed ==> milestone(next_state(config, state, event))
            == Milestone::Failed,
{
}

/// The cause is told before the cleanup runs: the step that begins a
/// rollback, or that ends the run without one, reports a failure with its
/// cause, and each step of the rollback reports how its removal went.
pub proof fn lemma_cause_is_told_before_cleanup(
    config: ServiceConfig,
    state: InstallState,
    event: Event,
)
    requires
        milestone(state) != Milestone::Failed,
        milestone(next_state(config, state, event)) == Milestone::Failed,
    ensures
        transition(config, state, event).1 is Failure,
        pending(next_state(config, state, event)) == Command::RemoveCredentials || pending(
            next_state(config, state, event),
        ) == Command::Finish,
{
}

} // verus!
