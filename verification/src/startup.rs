//! What the application is made of at startup, and how startup ends.

use crate::outcome::{judge, judged, Outcome};
use vstd::prelude::*;

verus! {

/// A capability of the host's plugin ecosystem.
#[derive(Clone, Copy, Debug, PartialEq, Eq, Structural)]
pub enum Plugin {
    /// Delivery and installation of updates.
    Updater,
    /// Exit and restart of the process.
    Process,
}

/// What is attached to the application before its event loop runs.
#[derive(Debug, PartialEq, Eq)]
pub struct StartupPlan {
    /// The plugins, in the order in which they are attached.
    pub plugins: Vec<Plugin>,
    /// The names of the application's own commands.
    pub commands: Vec<String>,
}

/// The plugins of the application: first the updater, then process control.
pub open spec fn plugins_at_startup() -> Seq<Plugin> {
    seq![Plugin::Updater, Plugin::Process]
}

/// Makes the plan of the application: its two plugins and an empty command
/// table.
pub fn startup_plan() -> (plan: StartupPlan)
    ensures
        plan.plugins@ == plugins_at_startup(),
        plan.commands@.len() == 0,
{
    let mut plugins: Vec<Plugin> = Vec::new();
    plugins.push(Plugin::Updater);
    plugins.push(Plugin::Process);
    StartupPlan { plugins, commands: Vec::new() }
}

/// What opens the diagnostic when the application could not be started.
pub const RUN_FAILED: &'static str = "error while running tauri application: ";

/// Judges what the host returned from running the application: either it ran
/// until it was terminated, or startup failed and the process ends with the
/// fixed diagnostic.
pub fn on_run_result(result: Result<(), String>) -> (outcome: Outcome)
    ensures
        outcome is Abort <==> result is Err,
        outcome@ == judged(RUN_FAILED@, result),
{
    judge(RUN_FAILED, result)
}

} // verus!
