//! Commands that are not built in: each is handed to an executable of its
//! own, named after the command.

use vstd::prelude::*;
use vstd::string::StringExecFns;

verus! {

/// Why a plugin could not be started.
#[derive(Clone, Copy, Debug, PartialEq, Eq, Structural)]
pub enum SpawnFailure {
    /// No executable of that name was found.
    NotFound,
    /// The file of that name may not be executed.
    PermissionDenied,
    /// Anything else.
    Other,
}

/// What came of starting a plugin.
#[derive(Clone, Copy, Debug, PartialEq, Eq, Structural)]
pub enum PluginOutcome {
    /// The plugin ran and ended, with an exit code unless a signal ended it.
    Exited { code: Option<i32> },
    /// The plugin did not start.
    NotStarted { failure: SpawnFailure },
}

/// What the command line does after a plugin was tried.
#[derive(Clone, Copy, Debug, PartialEq, Eq, Structural)]
pub enum PluginAction {
    /// End the process with this code.
    Exit { code: i32 },
    /// Go on with the built-in commands.
    Continue,
}

/// The name of the executable that serves `command`.
pub open spec fn spec_plugin_command(command: Seq<char>) -> Seq<char> {
    "trustee-"@ + command
}

/// The message that tells why a plugin could not be run.
pub open spec fn spec_plugin_failure(plugin_command: Seq<char>, reason: Seq<char>) -> Seq<char> {
    "can't run plugin: "@ + plugin_command + ": "@ + reason
}

/// What the command line does after a plugin was tried.
///
/// A plugin that ran decides the exit code; one that a signal ended counts
/// as failed with code 1. A plugin that is not there, or may not be
/// executed, is no plugin: the command line goes on. Any other failure to
/// start ends the process with code 1.
pub open spec fn spec_plugin_action(outcome: PluginOutcome) -> PluginAction {
    match outcome {
        PluginOutcome::Exited { code: Some(code) } => PluginAction::Exit { code },
        PluginOutcome::Exited { code: None } => PluginAction::Exit { code: 1 },
        PluginOutcome::NotStarted { failure: SpawnFailure::Other } => PluginAction::Exit {
            code: 1,
        },
        PluginOutcome::NotStarted { .. } => PluginAction::Continue,
    }
}

/// Names the executable that serves `command`.
pub fn plugin_command(command: &str) -> (name: String)
    ensures
        name@ == spec_plugin_command(command@),
{
    String::from_str("trustee-").concat(command)
}

/// Words the message that tells why a plugin could not be run.
pub fn plugin_failure(plugin_command: &str, reason: &str) -> (message: String)
    ensures
        message@ == spec_plugin_failure(plugin_command@, reason@),
{
    String::from_str("can't run plugin: ").concat(plugin_command).concat(": ").concat(reason)
}

/// Decides what the command line does after a plugin was tried.
pub fn plugin_action(outcome: PluginOutcome) -> (action: PluginAction)
    ensures
        action == spec_plugin_action(outcome),
{
    match outcome {
        PluginOutcome::Exited { code: Some(code) } => PluginAction::Exit { code },
        PluginOutcome::Exited { code: None } => PluginAction::Exit { code: 1 },
        PluginOutcome::NotStarted { failure: SpawnFailure::Other } => PluginAction::Exit {
            code: 1,
        },
        PluginOutcome::NotStarted { .. } => PluginAction::Continue,
    }
}

/// Whether a failure to start a plugin is worth an error in the log: a
/// plugin that is not there or may not be executed is only worth a note.
pub fn is_error(failure: SpawnFailure) -> (r: bool)
    ensures
        r == (failure == SpawnFailure::Other),
        r == (spec_plugin_action(PluginOutcome::NotStarted { failure }) != PluginAction::Continue),
{
    match failure {
        SpawnFailure::Other => true,
        _ => false,
    }
}

} // verus!
