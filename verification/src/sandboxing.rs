//! The sandbox that the platform offers.
use crate::path::Platform;
use vstd::prelude::*;

verus! {

/// A sandbox mechanism of an operating system.
#[derive(Clone, Copy, Debug, PartialEq, Eq, Structural)]
pub enum SandboxType {
    MacosSeatbelt,
    LinuxSeccomp,
    WindowsRestrictedToken,
}

pub open spec fn spec_get_platform_sandbox(windows_sandbox_enabled: bool, platform: Platform) -> Option<
    SandboxType,
> {
    match platform {
        Platform::MacOs => Some(SandboxType::MacosSeatbelt),
        Platform::Linux => Some(SandboxType::LinuxSeccomp),
        Platform::Windows => if windows_sandbox_enabled {
            Some(SandboxType::WindowsRestrictedToken)
        } else {
            None
        },
        Platform::Other => None,
    }
}

/// The sandbox this library can enforce on `platform`: macOS and Linux always have
/// one, Windows only when its sandbox is enabled, other platforms none.
pub fn get_platform_sandbox(windows_sandbox_enabled: bool, platform: Platform) -> (r: Option<
    SandboxType,
>)
    ensures
        r == spec_get_platform_sandbox(windows_sandbox_enabled, platform),
{
    match platform {
        Platform::MacOs => Some(SandboxType::MacosSeatbelt),
        Platform::Linux => Some(SandboxType::LinuxSeccomp),
        Platform::Windows => if windows_sandbox_enabled {
            Some(SandboxType::WindowsRestrictedToken)
        } else {
            None
        },
        Platform::Other => None,
    }
}

} // verus!
