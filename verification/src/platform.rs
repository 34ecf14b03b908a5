//! The platforms a service can be registered on, and how the running
//! operating system is mapped to one of them.

use vstd::prelude::*;

verus! {

/// `os_info::Type`, the operating systems that `os_info` tells apart. The
/// declaration claims nothing: Verus reads the variants from the crate.
#[verifier::external_type_specification]
pub struct ExOsType(os_info::Type);

/// The kind of service manager that the host offers.
#[derive(Clone, Copy, PartialEq, Eq, Structural, Debug)]
pub enum PlatformKind {
    /// systemd.
    Linux,
    /// The service control manager, driven through `nssm`.
    Windows,
    /// launchd.
    MacOS,
    /// None that is known here.
    Unsupported,
}

/// The platform of an operating system: Windows, macOS, the Linux
/// distributions that are known to run systemd units as written here, and
/// nothing else.
pub open spec fn platform_of(os: os_info::Type) -> PlatformKind {
    match os {
        os_info::Type::Windows => PlatformKind::Windows,
        os_info::Type::Macos => PlatformKind::MacOS,
        os_info::Type::Alpine
        | os_info::Type::Amazon
        | os_info::Type::Arch
        | os_info::Type::CentOS
        | os_info::Type::Debian
        | os_info::Type::EndeavourOS
        | os_info::Type::Fedora
        | os_info::Type::Gentoo
        | os_info::Type::Linux
        | os_info::Type::Manjaro
        | os_info::Type::Mint
        | os_info::Type::NixOS
        | os_info::Type::openSUSE
        | os_info::Type::OracleLinux
        | os_info::Type::Pop
        | os_info::Type::Solus
        | os_info::Type::SUSE
        | os_info::Type::Ubuntu
        | os_info::Type::Void => PlatformKind::Linux,
        _ => PlatformKind::Unsupported,
    }
}

/// The platform of the operating system `os`.
pub fn classify(os: os_info::Type) -> (kind: PlatformKind)
    ensures
        kind == platform_of(os),
{
    match os {
        os_info::Type::Windows => PlatformKind::Windows,
        os_info::Type::Macos => PlatformKind::MacOS,
        os_info::Type::Alpine
        | os_info::Type::Amazon
        | os_info::Type::Arch
        | os_info::Type::CentOS
        | os_info::Type::Debian
        | os_info::Type::EndeavourOS
        | os_info::Type::Fedora
        | os_info::Type::Gentoo
        | os_info::Type::Linux
        | os_info::Type::Manjaro
        | os_info::Type::Mint
        | os_info::Type::NixOS
        | os_info::Type::openSUSE
        | os_info::Type::OracleLinux
        | os_info::Type::Pop
        | os_info::Type::Solus
        | os_info::Type::SUSE
        | os_info::Type::Ubuntu
        | os_info::Type::Void => PlatformKind::Linux,
        _ => PlatformKind::Unsupported,
    }
}

/// `os_info::get` and `Info::os_type`: the type of the operating system
/// that the process runs on. Nothing is claimed of it.
#[verifier::external_body]
fn running_os() -> os_info::Type {
    os_info::get().os_type()
}

/// The platform of the host. It is whatever the host is: a caller has to
/// be ready for each of the four kinds.
pub fn detect() -> (kind: PlatformKind) {
    classify(running_os())
}

} // verus!
