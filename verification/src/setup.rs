//! The steps of the shell's setup, which the host performs one by one.
//!
//! The host performs a step, tells [`next_setup_step`] whether it succeeded,
//! and goes on with the step it gets back, until that is [`SetupStep::Done`].

use vstd::prelude::*;
use crate::bootstrap::{item_after, items_left, LayoutItem};

verus! {

/// One step of the setup.
#[derive(Clone, Copy, Debug, PartialEq, Eq, Structural)]
pub enum SetupStep {
    /// Create the application root below the user's home directory.
    CreateRoot,
    /// Look whether the entry exists under the root and perform its plan.
    Ensure(LayoutItem),
    /// Make the empty registry reachable for the commands.
    InstallRegistry,
    /// Spawn the worker and start relaying its output.
    SpawnWorker,
    /// Nothing is left to do.
    Done,
}

/// The step that follows `step`. Without the root the setup ends at once and
/// the shell runs without a worker; any later failure is the host's to log
/// and keeps the setup from nothing.
pub open spec fn setup_after(step: SetupStep, succeeded: bool) -> SetupStep {
    match step {
        SetupStep::CreateRoot => if succeeded {
            SetupStep::Ensure(LayoutItem::VectorStore)
        } else {
            SetupStep::Done
        },
        SetupStep::Ensure(item) => match item_after(item) {
            Some(following) => SetupStep::Ensure(following),
            None => SetupStep::InstallRegistry,
        },
        SetupStep::InstallRegistry => SetupStep::SpawnWorker,
        SetupStep::SpawnWorker => SetupStep::Done,
        SetupStep::Done => SetupStep::Done,
    }
}

/// Upper bound of the number of steps that the host still has to perform
/// once it stands at `step`, `step` included.
pub open spec fn steps_left(step: SetupStep) -> nat {
    match step {
        SetupStep::CreateRoot => 8,
        SetupStep::Ensure(item) => items_left(item) + 2,
        SetupStep::InstallRegistry => 2,
        SetupStep::SpawnWorker => 1,
        SetupStep::Done => 0,
    }
}

/// The step to go on with after `step`, given whether the host succeeded in
/// performing it.
pub fn next_setup_step(step: SetupStep, succeeded: bool) -> (next: SetupStep)
    ensures
        next == setup_after(step, succeeded),
        step !is Done ==> steps_left(next) < steps_left(step),
{
    match step {
        SetupStep::CreateRoot => {
            if succeeded {
                SetupStep::Ensure(LayoutItem::first())
            } else {
                SetupStep::Done
            }
        },
        SetupStep::Ensure(item) => match item.next() {
            Some(following) => SetupStep::Ensure(following),
            None => SetupStep::InstallRegistry,
        },
        SetupStep::InstallRegistry => SetupStep::SpawnWorker,
        SetupStep::SpawnWorker => SetupStep::Done,
        SetupStep::Done => SetupStep::Done,
    }
}

/// The steps that the host performs from `step` on, in order, where it fails
/// at the steps in `failures` and succeeds at the others.
pub open spec fn steps_from(step: SetupStep, failures: Set<SetupStep>) -> Seq<SetupStep>
    decreases steps_left(step),
{
    if step is Done {
        Seq::empty()
    } else {
        seq![step] + steps_from(setup_after(step, !failures.contains(step)), failures)
    }
}

/// Once the root is there, the setup visits every entry of the layout, then
/// installs the registry and spawns the worker, whatever fails on the way.
pub proof fn setup_skips_nothing(failures: Set<SetupStep>)
    requires
        !failures.contains(SetupStep::CreateRoot),
    ensures
        steps_from(SetupStep::CreateRoot, failures) == seq![
            SetupStep::CreateRoot,
            SetupStep::Ensure(LayoutItem::VectorStore),
            SetupStep::Ensure(LayoutItem::Uploads),
            SetupStep::Ensure(LayoutItem::ChatRecords),
            SetupStep::Ensure(LayoutItem::UserRecords),
            SetupStep::Ensure(LayoutItem::DocumentRecords),
            SetupStep::InstallRegistry,
            SetupStep::SpawnWorker,
        ],
{
    reveal_with_fuel(steps_from, 9);
    assert(steps_from(SetupStep::CreateRoot, failures) =~= seq![
        SetupStep::CreateRoot,
        SetupStep::Ensure(LayoutItem::VectorStore),
        SetupStep::Ensure(LayoutItem::Uploads),
        SetupStep::Ensure(LayoutItem::ChatRecords),
        SetupStep::Ensure(LayoutItem::UserRecords),
        SetupStep::Ensure(LayoutItem::DocumentRecords),
        SetupStep::InstallRegistry,
        SetupStep::SpawnWorker,
    ]);
}

/// Without the root the setup does nothing more: no entry is visited, no
/// registry is installed and no worker is spawned.
pub proof fn setup_ends_without_root(failures: Set<SetupStep>)
    requires
        failures.contains(SetupStep::CreateRoot),
    ensures
        steps_from(SetupStep::CreateRoot, failures) == seq![SetupStep::CreateRoot],
{
    reveal_with_fuel(steps_from, 2);
    assert(steps_from(SetupStep::CreateRoot, failures) =~= seq![SetupStep::CreateRoot]);
}

} // verus!
