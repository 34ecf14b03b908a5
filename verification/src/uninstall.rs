//! The uninstall orchestrator: once the operator has agreed, it removes
//! the credentials, stops and deregisters the service, and removes the
//! descriptor. Every step is made for what it is worth: none of them can
//! stop the next.

use vstd::prelude::*;
use crate::host::{effect, Artifacts};
use crate::outcome::UninstallOutcome;
use crate::platform::PlatformKind;
use crate::protocol::{Artifact, Command, Event, RemovalResult};
use crate::report::{Cause, Report};

verus! {

/// Where an uninstallation stands. Each state but the last waits for the
/// answer to one command.
#[derive(Clone, Copy, PartialEq, Eq, Structural, Debug)]
pub enum UninstallState {
    /// Nothing is touched yet; the operator is asked to confirm.
    AwaitingConfirmation,
    /// The environment file is being removed.
    RemovingCredentials,
    /// The running service is being stopped.
    StoppingService,
    /// The service is being taken out of the service manager.
    DeregisteringService,
    /// The descriptor is being removed.
    RemovingDescriptor,
    /// The uninstallation has ended.
    Finished(UninstallOutcome),
}

/// The result of one step: the new state, the news for the operator, and
/// the command to carry out next.
#[derive(Debug)]
pub struct UninstallStep {
    pub state: UninstallState,
    pub report: Report,
    pub command: Command,
}

/// The state in which an uninstallation starts.
pub open spec fn initial() -> UninstallState {
    UninstallState::AwaitingConfirmation
}

/// The command whose answer `state` waits for.
pub open spec fn pending(state: UninstallState) -> Command {
    match state {
        UninstallState::AwaitingConfirmation => Command::AskConfirmation,
        UninstallState::RemovingCredentials => Command::RemoveCredentials,
        UninstallState::StoppingService => Command::StopService,
        UninstallState::DeregisteringService => Command::DeregisterService,
        UninstallState::RemovingDescriptor => Command::RemoveDescriptor,
        UninstallState::Finished(_) => Command::Finish,
    }
}

/// The end of an uninstallation whose driver broke the protocol.
pub open spec fn aborted() -> (UninstallState, Report) {
    (UninstallState::Finished(UninstallOutcome::Aborted), Report::Failure(Cause::UnexpectedEvent))
}

/// The state that follows `state` when the driver answers `event`, and
/// the news of the step. Declining ends the run before anything is
/// touched. After that the environment file goes in any case; on an
/// unsupported platform the run then ends, and on the others no answer
/// keeps the next command from being given.
pub open spec fn transition(platform: PlatformKind, state: UninstallState, event: Event) -> (
    UninstallState,
    Report,
) {
    match state {
        UninstallState::AwaitingConfirmation => match event {
            Event::Confirmation { agreed } => if agreed {
                (UninstallState::RemovingCredentials, Report::Progress)
            } else {
                (UninstallState::Finished(UninstallOutcome::Declined), Report::Declined)
            },
            _ => aborted(),
        },
        UninstallState::RemovingCredentials => match event {
            Event::Removal { result } => (
                if platform == PlatformKind::Unsupported {
                    UninstallState::Finished(UninstallOutcome::UnsupportedPlatform)
                } else {
                    UninstallState::StoppingService
                },
                Report::Cleanup { artifact: Artifact::Credentials, result },
            ),
            _ => aborted(),
        },
        UninstallState::StoppingService => match event {
            Event::Process { result } => (
                UninstallState::DeregisteringService,
                Report::Attempt { command: Command::StopService, result },
            ),
            _ => aborted(),
        },
        UninstallState::DeregisteringService => match event {
            Event::Process { result } => (
                UninstallState::RemovingDescriptor,
                Report::Attempt { command: Command::DeregisterService, result },
            ),
            _ => aborted(),
        },
        UninstallState::RemovingDescriptor => match event {
            Event::Removal { result } => (
                UninstallState::Finished(UninstallOutcome::Completed),
                Report::Cleanup { artifact: Artifact::Descriptor, result },
            ),
            _ => aborted(),
        },
        UninstallState::Finished(_) => (state, Report::Nothing),
    }
}

/// The state that follows `state` when the driver answers `event`.
pub open spec fn next_state(platform: PlatformKind, state: UninstallState, event: Event) -> UninstallState {
    transition(platform, state, event).0
}

/// The command whose answer `state` waits for.
pub fn pending_command(state: UninstallState) -> (command: Command)
    ensures
        command == pending(state),
{
    match state {
        UninstallState::AwaitingConfirmation => Command::AskConfirmation,
        UninstallState::RemovingCredentials => Command::RemoveCredentials,
        UninstallState::StoppingService => Command::StopService,
        UninstallState::DeregisteringService => Command::DeregisterService,
        UninstallState::RemovingDescriptor => Command::RemoveDescriptor,
        UninstallState::Finished(_) => Command::Finish,
    }
}

/// The outcome, once the uninstallation has ended.
pub fn outcome(state: UninstallState) -> (outcome: Option<UninstallOutcome>)
    ensures
        outcome == match state {
            UninstallState::Finished(o) => Some(o),
            _ => None::<UninstallOutcome>,
        },
{
    match state {
        UninstallState::Finished(o) => Some(o),
        _ => None,
    }
}

fn go(state: UninstallState, report: Report) -> (step: UninstallStep)
    ensures
        step.state == state,
        step.report == report,
        step.command == pending(state),
{
    UninstallStep { state, report, command: pending_command(state) }
}

/// The first step of an uninstallation: ask the operator to confirm.
pub fn start() -> (first: UninstallStep)
    ensures
        first.state == initial(),
        first.report == Report::Progress,
        first.command == Command::AskConfirmation,
{
    go(UninstallState::AwaitingConfirmation, Report::Progress)
}

/// One step of the uninstallation: takes the driver's answer to the
/// pending command and names the next one.
pub fn step(platform: PlatformKind, state: UninstallState, event: &Event) -> (next: UninstallStep)
    ensures
        (next.state, next.report) == transition(platform, state, *event),
        next.command == pending(next.state),
{
    let failed = go(
        UninstallState::Finished(UninstallOutcome::Aborted),
        Report::Failure(Cause::UnexpectedEvent),
    );
    match state {
        UninstallState::AwaitingConfirmation => match event {
            Event::Confirmation { agreed } => if *agreed {
                go(UninstallState::RemovingCredentials, Report::Progress)
            } else {
                go(UninstallState::Finished(UninstallOutcome::Declined), Report::Declined)
            },
            _ => failed,
        },
        UninstallState::RemovingCredentials => match event {
            Event::Removal { result } => {
                let report = Report::Cleanup { artifact: Artifact::Credentials, result: *result };
                match platform {
                    PlatformKind::Unsupported => go(
                        UninstallState::Finished(UninstallOutcome::UnsupportedPlatform),
                        report,
                    ),
                    _ => go(UninstallState::StoppingService, report),
                }
            },
            _ => failed,
        },
        UninstallState::StoppingService => match event {
            Event::Process { result } => go(
                UninstallState::DeregisteringService,
                Report::Attempt { command: Command::StopService, result: *result },
            ),
            _ => failed,
        },
        UninstallState::DeregisteringService => match event {
            Event::Process { result } => go(
                UninstallState::RemovingDescriptor,
                Report::Attempt { command: Command::DeregisterService, result: *result },
            ),
            _ => failed,
        },
        UninstallState::RemovingDescriptor => match event {
            Event::Removal { result } => go(
                UninstallState::Finished(UninstallOutcome::Completed),
                Report::Cleanup { artifact: Artifact::Descriptor, result: *result },
            ),
            _ => failed,
        },
        UninstallState::Finished(_) => go(state, Report::Nothing),
    }
}

/// The state after the driver has answered with `events`, one after the
/// other, each to the command that was pending.
pub open spec fn run(platform: PlatformKind, state: UninstallState, events: Seq<Event>) -> UninstallState
    decreases events.len(),
{
    if events.len() == 0 {
        state
    } else {
        run(platform, next_state(platform, state, events[0]), events.drop_first())
    }
}

/// What may be on the disk after the driver has carried out the pending
/// commands and answered with `events`, on a host that had `host`.
pub open spec fn host_after(
    platform: PlatformKind,
    state: UninstallState,
    host: Artifacts,
    events: Seq<Event>,
) -> Artifacts
    decreases events.len(),
{
    if events.len() == 0 {
        host
    } else {
        host_after(
            platform,
            next_state(platform, state, events[0]),
            effect(pending(state), events[0], host),
            events.drop_first(),
        )
    }
}

/// No removal among `events` is reported as failed.
pub open spec fn no_removal_failed(events: Seq<Event>) -> bool {
    forall|i: int|
        0 <= i < events.len() ==> !(#[trigger] events[i] matches Event::Removal { result }
            && result == RemovalResult::Failed)
}

/// An uninstallation that has ended stays as it ended, and changes
/// nothing any more.
pub proof fn lemma_finished_is_final(
    platform: PlatformKind,
    outcome: UninstallOutcome,
    host: Artifacts,
    events: Seq<Event>,
)
    ensures
        run(platform, UninstallState::Finished(outcome), events) == UninstallState::Finished(
            outcome,
        ),
        host_after(platform, UninstallState::Finished(outcome), host, events) == host,
    decreases events.len(),
{
    if events.len() > 0 {
        lemma_finished_is_final(platform, outcome, host, events.drop_first());
    }
}

/// Nothing is touched without the operator's consent: unless the first
/// answer is the operator's agreement, the disk stays as it was and the
/// run does not complete, whatever the driver goes on to answer. Where
/// the operator declined, the run ends as declined.
pub proof fn lemma_nothing_changes_without_consent(
    platform: PlatformKind,
    host: Artifacts,
    events: Seq<Event>,
)
    requires
        events.len() > 0 ==> !(events[0] matches Event::Confirmation { agreed } && agreed),
    ensures
        host_after(platform, initial(), host, events) == host,
        run(platform, initial(), events) != UninstallState::Finished(UninstallOutcome::Completed),
        events.len() > 0 && events[0] is Confirmation ==> run(platform, initial(), events)
            == UninstallState::Finished(UninstallOutcome::Declined),
{
    if events.len() > 0 {
        match next_state(platform, initial(), events[0]) {
            UninstallState::Finished(o) => lemma_finished_is_final(
                platform,
                o,
                host,
                events.drop_first(),
            ),
            _ => {},
        }
    }
}

/// What the states know about the disk as long as no removal has failed:
/// once the environment file has been dealt with it is gone, and after a
/// complete run the descriptor is gone too.
spec fn consistent(state: UninstallState, host: Artifacts) -> bool {
    match state {
        UninstallState::StoppingService
        | UninstallState::DeregisteringService
        | UninstallState::RemovingDescriptor
        | UninstallState::Finished(UninstallOutcome::UnsupportedPlatform) => !host.credentials,
        UninstallState::Finished(UninstallOutcome::Completed) => host == Artifacts::none(),
        _ => true,
    }
}

proof fn lemma_run_is_consistent(
    platform: PlatformKind,
    state: UninstallState,
    host: Artifacts,
    events: Seq<Event>,
)
    requires
        consistent(state, host),
        no_removal_failed(events),
    ensures
        consistent(run(platform, state, events), host_after(platform, state, host, events)),
    decreases events.len(),
{
    if events.len() > 0 {
        let rest = events.drop_first();
        assert forall|i: int| 0 <= i < rest.len() implies !(#[trigger] rest[i] matches Event::Removal {
            result,
        } && result == RemovalResult::Failed) by {
            assert(rest[i] == events[i + 1]);
        }
        assert(!(events[0] matches Event::Removal { result } && result == RemovalResult::Failed));
        lemma_run_is_consistent(
            platform,
            next_state(platform, state, events[0]),
            effect(pending(state), events[0], host),
            rest,
        );
    }
}

/// A complete uninstallation in which no removal failed leaves neither
/// the environment file nor the descriptor, whatever was there before.
pub proof fn lemma_completed_leaves_nothing(
    platform: PlatformKind,
    host: Artifacts,
    events: Seq<Event>,
)
    requires
        no_removal_failed(events),
        run(platform, initial(), events) == UninstallState::Finished(UninstallOutcome::Completed),
    ensures
        host_after(platform, initial(), host, events) == Artifacts::none(),
{
    lemma_run_is_consistent(platform, initial(), host, events);
}

/// The states in which the service and its descriptor are untouched.
spec fn short_of_the_service(state: UninstallState) -> bool {
    match state {
        UninstallState::AwaitingConfirmation | UninstallState::RemovingCredentials => true,
        UninstallState::Finished(outcome) => outcome != UninstallOutcome::Completed,
        _ => false,
    }
}

proof fn lemma_descriptor_kept_from(state: UninstallState, host: Artifacts, events: Seq<Event>)
    requires
        short_of_the_service(state),
    ensures
        short_of_the_service(run(PlatformKind::Unsupported, state, events)),
        host_after(PlatformKind::Unsupported, state, host, events).descriptor == host.descriptor,
    decreases events.len(),
{
    if events.len() > 0 {
        lemma_descriptor_kept_from(
            next_state(PlatformKind::Unsupported, state, events[0]),
            effect(pending(state), events[0], host),
            events.drop_first(),
        );
    }
}

/// On a platform without a known service manager the uninstallation does
/// nothing beyond the removal of the environment file: it never completes,
/// and the descriptor is left as it was.
pub proof fn lemma_unsupported_platform_keeps_descriptor(host: Artifacts, events: Seq<Event>)
    ensures
        host_after(PlatformKind::Unsupported, initial(), host, events).descriptor
            == host.descriptor,
        run(PlatformKind::Unsupported, initial(), events) != UninstallState::Finished(
            UninstallOutcome::Completed,
        ),
{
    lemma_descriptor_kept_from(initial(), host, events);
}

} // verus!
