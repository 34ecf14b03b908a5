//! A model of the host's disk, as far as the orchestrators change it: which
//! of the two artifacts may be there.

use vstd::prelude::*;
use crate::protocol::{Command, Event, RemovalResult};

verus! {

/// Which artifacts may exist. `false` means that the file is known to be
/// absent.
pub struct Artifacts {
    pub credentials: bool,
    pub descriptor: bool,
}

impl Artifacts {
    /// A host without any artifact.
    pub open spec fn none() -> Artifacts {
        Artifacts { credentials: false, descriptor: false }
    }
}

/// Whether `event` says that the file is gone.
pub open spec fn reports_absence(event: Event) -> bool {
    event matches Event::Removal { result } && result != RemovalResult::Failed
}

/// The artifacts that may exist after the driver carried out `command` on a
/// host with `before` and answered with `event`. A write may leave a file
/// even where it failed; a removal leaves none where the driver says that
/// the file was removed or was missing.
pub open spec fn effect(command: Command, event: Event, before: Artifacts) -> Artifacts {
    match command {
        Command::WriteCredentials => Artifacts { credentials: true, ..before },
        Command::WriteDescriptor => Artifacts { descriptor: true, ..before },
        Command::RemoveCredentials => Artifacts {
            credentials: before.credentials && !reports_absence(event),
            ..before
        },
        Command::RemoveDescriptor => Artifacts {
            descriptor: before.descriptor && !reports_absence(event),
            ..before
        },
        _ => before,
    }
}

/// Whether the answer `result` can be true of a file that was there or not
/// (`present`) when its removal was attempted.
pub open spec fn truthful(present: bool, result: RemovalResult) -> bool {
    match result {
        RemovalResult::Removed => present,
        RemovalResult::Missing => !present,
        RemovalResult::Failed => true,
    }
}

/// Whether the file is there after a removal that was answered truthfully.
pub open spec fn remains(present: bool, result: RemovalResult) -> bool {
    present && result != RemovalResult::Removed
}

} // verus!
