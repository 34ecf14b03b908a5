//! The registrar for Linux: the unit file that systemd reads.

use vstd::prelude::*;
use vstd::string::*;
use crate::service::{
    is_line_field, is_unix_absolute, line_field, unix_absolute, RegistrationError,
    RegistrationStage,
};

verus! {

/// Whether a unit file can be written for these names and paths.
pub open spec fn unit_inputs_ok(
    service_name: Seq<char>,
    user: Seq<char>,
    working_dir: Seq<char>,
    env_file: Seq<char>,
) -> bool {
    &&& line_field(service_name)
    &&& line_field(user)
    &&& line_field(working_dir) && unix_absolute(working_dir)
    &&& line_field(env_file) && unix_absolute(env_file)
}

/// The unit file: the service runs `npm start` as `user` in `working_dir`,
/// takes its environment from `env_file`, and is always restarted.
pub open spec fn unit_text(
    service_name: Seq<char>,
    user: Seq<char>,
    working_dir: Seq<char>,
    env_file: Seq<char>,
) -> Seq<char> {
    "[Unit]\nDescription="@ + service_name
        + "\nAfter=network.target\n\n[Service]\nType=simple\nUser="@ + user
        + "\nWorkingDirectory="@ + working_dir
        + "\nExecStart=/usr/bin/npm start\nRestart=always\nEnvironmentFile="@ + env_file
        + "\n\n[Install]\nWantedBy=multi-user.target"@
}

/// Renders the unit file, or refuses names and paths that would not stay on
/// their line or are not absolute.
pub fn systemd_unit(service_name: &str, user: &str, working_dir: &str, env_file: &str) -> (unit:
    Result<String, RegistrationError>)
    ensures
        match unit {
            Ok(text) => unit_inputs_ok(service_name@, user@, working_dir@, env_file@) && text@
                == unit_text(service_name@, user@, working_dir@, env_file@),
            Err(e) => !unit_inputs_ok(service_name@, user@, working_dir@, env_file@) && e.stage
                == RegistrationStage::Inputs,
        },
{
    if !(is_line_field(service_name) && is_line_field(user) && is_line_field(working_dir)
        && is_unix_absolute(working_dir) && is_line_field(env_file) && is_unix_absolute(env_file)) {
        return Err(RegistrationError { stage: RegistrationStage::Inputs });
    }
    let mut text = String::from_str("[Unit]\nDescription=");
    text.append(service_name);
    text.append("\nAfter=network.target\n\n[Service]\nType=simple\nUser=");
    text.append(user);
    text.append("\nWorkingDirectory=");
    text.append(working_dir);
    text.append("\nExecStart=/usr/bin/npm start\nRestart=always\nEnvironmentFile=");
    text.append(env_file);
    text.append("\n\n[Install]\nWantedBy=multi-user.target");
    Ok(text)
}

} // verus!
