//! The service registrar: one registrar for each platform, chosen by the
//! kind of the platform and by nothing else. Each renders the descriptor
//! that tells the service manager how to run the application.

use vstd::prelude::*;
use vstd::string::*;
use crate::credentials::CredentialSet;
use crate::launchd::{agent_inputs_ok, agent_text, launchd_plist};
use crate::nssm::{nssm_script, script_inputs_ok, script_text};
use crate::platform::PlatformKind;
use crate::service::{RegistrationError, RegistrationStage, ServiceConfig};
use crate::systemd::{systemd_unit, unit_inputs_ok, unit_text};

verus! {

/// Whether the registrar of the platform accepts the names and paths.
pub open spec fn inputs_ok(config: ServiceConfig) -> bool {
    match config.platform {
        PlatformKind::Linux => unit_inputs_ok(
            config.service_name@,
            config.user@,
            config.working_dir@,
            config.env_file@,
        ),
        PlatformKind::Windows => script_inputs_ok(
            config.service_name@,
            config.working_dir@,
            config.env_file@,
        ),
        PlatformKind::MacOS => agent_inputs_ok(config.service_name@, config.working_dir@),
        PlatformKind::Unsupported => false,
    }
}

/// The descriptor of the platform for `config` and the credentials
/// `entries`.
pub open spec fn descriptor_text(config: ServiceConfig, entries: Seq<(Seq<char>, Seq<char>)>) -> Seq<
    char,
> {
    match config.platform {
        PlatformKind::Linux => unit_text(
            config.service_name@,
            config.user@,
            config.working_dir@,
            config.env_file@,
        ),
        PlatformKind::Windows => script_text(
            config.service_name@,
            config.working_dir@,
            config.env_file@,
            entries,
        ),
        PlatformKind::MacOS => agent_text(config.service_name@, config.working_dir@, entries),
        PlatformKind::Unsupported => Seq::empty(),
    }
}

/// The descriptor of the service for its platform: the unit file on
/// Linux, which names the environment file and leaves `credentials` aside;
/// the script on Windows and the launch agent on macOS, which both carry
/// the credentials themselves. Names and paths that the registrar cannot
/// write down are refused, and so is a platform without a registrar.
pub fn descriptor(config: &ServiceConfig, credentials: &CredentialSet) -> (text: Result<
    String,
    RegistrationError,
>)
    ensures
        match text {
            Ok(t) => inputs_ok(*config) && t@ == descriptor_text(*config, credentials@),
            Err(e) => !inputs_ok(*config) && e.stage == RegistrationStage::Inputs,
        },
{
    match config.platform {
        PlatformKind::Linux => systemd_unit(
            config.service_name.as_str(),
            config.user.as_str(),
            config.working_dir.as_str(),
            config.env_file.as_str(),
        ),
        PlatformKind::Windows => nssm_script(
            config.service_name.as_str(),
            config.working_dir.as_str(),
            config.env_file.as_str(),
            credentials,
        ),
        PlatformKind::MacOS => launchd_plist(
            config.service_name.as_str(),
            config.working_dir.as_str(),
            credentials,
        ),
        PlatformKind::Unsupported => Err(RegistrationError { stage: RegistrationStage::Inputs }),
    }
}

} // verus!
