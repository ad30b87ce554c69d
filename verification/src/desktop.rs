//! Entry of the desktop shell.

use vstd::prelude::*;
use crate::platform::Platform;
use crate::setup::SetupStep;
use crate::supervisor::SidecarSupervisor;

verus! {

/// What the desktop shell starts with.
pub struct DesktopShell<C> {
    /// The supervisor that every command and the exit path share.
    pub supervisor: SidecarSupervisor<C>,
    /// The first step of the setup.
    pub setup: SetupStep,
}

/// Name of the worker binary, which the host resolves by its packaging
/// convention and launches without arguments.
pub fn worker_binary() -> (name: &'static str)
    ensures
        name@ == "main"@,
{
    "main"
}

/// Where the desktop shell starts: with a supervisor that has no registry
/// yet, and with the first step of the setup before it. The shell is for
/// desktop hosts only.
pub fn desktop_entry_point<C>(platform: Platform) -> (shell: DesktopShell<C>)
    requires
        platform is Desktop,
    ensures
        shell.supervisor@ is Unavailable,
        shell.setup is CreateRoot,
{
    DesktopShell { supervisor: SidecarSupervisor::new(), setup: SetupStep::CreateRoot }
}

} // verus!
