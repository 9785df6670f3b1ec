//! The host-information record returned to the embedded UI.

use vstd::prelude::*;

verus! {

/// The fixed-shape record the `getSystemInfo` command returns: the OS
/// platform identifier, the CPU architecture identifier, and the
/// application's own declared version and name.
#[derive(Debug)]
pub struct SystemInfo {
    /// The OS platform identifier.
    pub platform: String,
    /// The CPU architecture identifier.
    pub arch: String,
    /// The application's declared version.
    pub version: String,
    /// The application's declared name.
    pub name: String,
}

/// The application's declared name.
pub fn app_name() -> (s: String)
    ensures
        s@ == "aura"@,
{
    "aura".to_owned()
}

/// The application's declared version.
pub fn app_version() -> (s: String)
    ensures
        s@ == "0.1.0"@,
{
    "0.1.0".to_owned()
}

/// Builds the host-information record from the platform and architecture
/// identifiers the shell reads from the build, pinning the name and version
/// to the application's declared identity. Pure: the same inputs always give
/// the same record.
pub fn get_system_info(platform: String, arch: String) -> (info: SystemInfo)
    ensures
        info.platform == platform,
        info.arch == arch,
        info.version@ == "0.1.0"@,
        info.name@ == "aura"@,
{
    SystemInfo { platform, arch, version: app_version(), name: app_name() }
}

} // verus!
