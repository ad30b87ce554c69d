//! Entry of the mobile shell.

use vstd::prelude::*;
use crate::platform::Platform;
use crate::setup::SetupStep;

verus! {

/// Where the mobile shell starts. It has no root to prepare and supervises
/// no worker, so its setup is done before it begins. The shell is for mobile
/// hosts only.
pub fn mobile_entry_point(platform: Platform) -> (step: SetupStep)
    requires
        platform is Mobile,
    ensures
        step is Done,
{
    SetupStep::Done
}

} // verus!
