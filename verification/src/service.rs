//! What is known about the service to register: its names, the account it
//! runs as, and where its files live.

use vstd::prelude::*;
use vstd::string::*;
use crate::platform::{detect, PlatformKind};
use crate::text::{chars_of, line_safe, is_line_safe};

verus! {

/// The description of one service on one host. Every path is absolute and
/// already resolved by whoever fills the structure in.
#[derive(Clone, Debug)]
pub struct ServiceConfig {
    /// The service manager of the host.
    pub platform: PlatformKind,
    /// The name under which the service is shown and registered.
    pub service_name: String,
    /// The name of the systemd unit.
    pub unit_name: String,
    /// The account that the service runs as.
    pub user: String,
    /// The directory of the application.
    pub working_dir: String,
    /// The environment file that holds the credentials.
    pub env_file: String,
    /// The file that describes the service to the service manager: the unit
    /// file, the generated script, or the launch agent.
    pub descriptor_path: String,
}

/// The step of a registration that failed.
#[derive(Clone, Copy, PartialEq, Eq, Structural, Debug)]
pub enum RegistrationStage {
    /// A name or a path cannot be written into the descriptor.
    Inputs,
    /// The credentials could not be read back from the environment file.
    Credentials,
    /// The descriptor could not be written.
    Descriptor,
    /// The service manager did not reload its units.
    Reload,
    /// The service was not enabled.
    Enable,
    /// The service did not start.
    Start,
    /// The generated script did not run to a good end.
    Script,
}

/// A registration that did not succeed.
#[derive(Clone, Copy, PartialEq, Eq, Structural, Debug)]
pub struct RegistrationError {
    pub stage: RegistrationStage,
}

/// A text that fills one line of a descriptor: not empty, and on one line.
pub open spec fn line_field(s: Seq<char>) -> bool {
    s.len() > 0 && line_safe(s)
}

/// An absolute path in the notation of Linux and macOS.
pub open spec fn unix_absolute(path: Seq<char>) -> bool {
    path.len() > 0 && path[0] == '/'
}

/// A letter from `a` to `z`, small or capital.
pub open spec fn is_ascii_letter(c: char) -> bool {
    ('a' <= c && c <= 'z') || ('A' <= c && c <= 'Z')
}

/// An absolute path in the notation of Windows: a drive letter, a colon and
/// a separator, or two backslashes.
pub open spec fn windows_absolute(path: Seq<char>) -> bool {
    ||| path.len() >= 3 && is_ascii_letter(path[0]) && path[1] == ':' && (path[2] == '\\'
        || path[2] == '/')
    ||| path.len() >= 2 && path[0] == '\\' && path[1] == '\\'
}

/// Whether `s` fills one line of a descriptor.
pub fn is_line_field(s: &str) -> (b: bool)
    ensures
        b == line_field(s@),
{
    s.unicode_len() > 0 && is_line_safe(s)
}

/// Whether `path` is absolute in the notation of Linux and macOS.
pub fn is_unix_absolute(path: &str) -> (b: bool)
    ensures
        b == unix_absolute(path@),
{
    path.unicode_len() > 0 && path.get_char(0) == '/'
}

/// Whether `c` can name a drive.
pub fn ascii_letter(c: char) -> (b: bool)
    ensures
        b == is_ascii_letter(c),
{
    ('a' <= c && c <= 'z') || ('A' <= c && c <= 'Z')
}

/// Whether `path` is absolute in the notation of Windows.
pub fn is_windows_absolute(path: &str) -> (b: bool)
    ensures
        b == windows_absolute(path@),
{
    let chars = chars_of(path);
    let n: usize = chars.len();
    (n >= 3 && ascii_letter(chars[0]) && chars[1] == ':' && (chars[2] == '\\' || chars[2] == '/'))
        || (n >= 2 && chars[0] == '\\' && chars[1] == '\\')
}

/// The environment file of an application in `working_dir`.
pub open spec fn env_file_in(platform: PlatformKind, working_dir: Seq<char>) -> Seq<char> {
    if platform == PlatformKind::Windows {
        working_dir + "\\.env"@
    } else {
        working_dir + "/.env"@
    }
}

/// The name of the systemd unit of the service with the short name `slug`.
pub open spec fn unit_name_of(slug: Seq<char>) -> Seq<char> {
    slug + ".service"@
}

/// Where the descriptor of the service with the short name `slug` lives:
/// in the system's unit directory, in a script beside the installer, or
/// among the launch agents of the user whose home directory is `home`.
pub open spec fn descriptor_path_of(platform: PlatformKind, slug: Seq<char>, home: Seq<char>) -> Seq<
    char,
> {
    match platform {
        PlatformKind::Linux => "/etc/systemd/system/"@ + unit_name_of(slug),
        PlatformKind::Windows => "install_"@ + slug + "_service.bat"@,
        PlatformKind::MacOS => home + "/Library/LaunchAgents/"@ + slug + ".plist"@,
        PlatformKind::Unsupported => Seq::empty(),
    }
}

/// `whoami::username`: the name of the user that runs the process, or a
/// stand-in where the system does not tell. Nothing is claimed of it.
#[verifier::external_body]
fn account_name() -> String {
    whoami::username()
}

impl ServiceConfig {
    /// The description of the service `service_name`, with the short name
    /// `slug`, of the application in `working_dir`, with every file at its
    /// usual place.
    pub fn standard(
        platform: PlatformKind,
        user: &str,
        service_name: &str,
        slug: &str,
        working_dir: &str,
        home: &str,
    ) -> (config: ServiceConfig)
        ensures
            config.platform == platform,
            config.user@ == user@,
            config.service_name@ == service_name@,
            config.working_dir@ == working_dir@,
            config.unit_name@ == unit_name_of(slug@),
            config.env_file@ == env_file_in(platform, working_dir@),
            config.descriptor_path@ == descriptor_path_of(platform, slug@, home@),
    {
        let mut unit_name = slug.to_owned();
        unit_name.append(".service");
        let mut env_file = working_dir.to_owned();
        let mut descriptor_path = String::new();
        match platform {
            PlatformKind::Linux => {
                env_file.append("/.env");
                descriptor_path.append("/etc/systemd/system/");
                descriptor_path.append(unit_name.as_str());
                assert(descriptor_path@ =~= "/etc/systemd/system/"@ + unit_name_of(slug@));
            },
            PlatformKind::Windows => {
                env_file.append("\\.env");
                descriptor_path.append("install_");
                descriptor_path.append(slug);
                descriptor_path.append("_service.bat");
                assert(descriptor_path@ =~= "install_"@ + slug@ + "_service.bat"@);
            },
            PlatformKind::MacOS => {
                env_file.append("/.env");
                descriptor_path.append(home);
                descriptor_path.append("/Library/LaunchAgents/");
                descriptor_path.append(slug);
                descriptor_path.append(".plist");
                assert(descriptor_path@ =~= home@ + "/Library/LaunchAgents/"@ + slug@
                    + ".plist"@);
            },
            PlatformKind::Unsupported => {
                env_file.append("/.env");
            },
        }
        ServiceConfig {
            platform,
            service_name: service_name.to_owned(),
            unit_name,
            user: user.to_owned(),
            working_dir: working_dir.to_owned(),
            env_file,
            descriptor_path,
        }
    }

    /// The same description for the host and the user that run the
    /// process. The platform and the user are whatever they are; the rest
    /// is fixed by the arguments.
    pub fn on_this_host(service_name: &str, slug: &str, working_dir: &str, home: &str) -> (config:
        ServiceConfig)
        ensures
            config.service_name@ == service_name@,
            config.working_dir@ == working_dir@,
            config.unit_name@ == unit_name_of(slug@),
            config.env_file@ == env_file_in(config.platform, working_dir@),
            config.descriptor_path@ == descriptor_path_of(config.platform, slug@, home@),
    {
        let user = account_name();
        ServiceConfig::standard(detect(), user.as_str(), service_name, slug, working_dir, home)
    }
}

} // verus!
