//! The actions the controller asks its surroundings to perform, the choice
//! of the privileged start/stop command for the service toggle, and the
//! interpretation of how an issued command ended.

use vstd::prelude::*;

verus! {

/// An outward request the dispatch loop emits; the embedding program
/// performs it.  The spawned trio is launched as detached, independent
/// invocations with no join: the loop never waits on them.
#[derive(Clone, Copy, PartialEq, Eq, Structural, Debug)]
pub enum Action {
    CreateTray,
    DestroyTray,
    RunLock,
    SpawnPauseMedia,
    SpawnLock,
    SpawnSuspend,
    RunToggleService,
}

/// Which privileged command the toggle must issue.
#[derive(Clone, Copy, PartialEq, Eq, Structural, Debug)]
pub enum ToggleCommand {
    Start,
    Stop,
}

/// An active service is asked to stop; an inactive one is asked to start.
pub open spec fn toggle_command_spec(active: bool) -> ToggleCommand {
    if active {
        ToggleCommand::Stop
    } else {
        ToggleCommand::Start
    }
}

/// Chooses the privileged command from the service state observed just
/// before the toggle.
pub fn toggle_command(active: bool) -> (c: ToggleCommand)
    ensures
        c == toggle_command_spec(active),
{
    if active {
        ToggleCommand::Stop
    } else {
        ToggleCommand::Start
    }
}

/// How an issued privileged command ended: it ran to completion (with its
/// reported success and captured standard error), or it could not be
/// launched at all.
#[derive(Debug)]
pub enum CommandOutcome {
    Completed { success: bool, stderr: Vec<u8> },
    LaunchFailed { message: String },
}

/// Mathematical model of a command outcome.
pub enum CommandOutcomeModel {
    Completed { success: bool, stderr: Seq<u8> },
    LaunchFailed { message: Seq<char> },
}

impl View for CommandOutcome {
    type V = CommandOutcomeModel;

    open spec fn view(&self) -> CommandOutcomeModel {
        match self {
            CommandOutcome::Completed { success, stderr } => CommandOutcomeModel::Completed {
                success: *success,
                stderr: stderr@,
            },
            CommandOutcome::LaunchFailed { message } => CommandOutcomeModel::LaunchFailed {
                message: message@,
            },
        }
    }
}

/// The toggle counts as successful only when the command ran and reported
/// success.
pub open spec fn toggle_succeeded(o: CommandOutcomeModel) -> bool {
    match o {
        CommandOutcomeModel::Completed { success, .. } => success,
        CommandOutcomeModel::LaunchFailed { .. } => false,
    }
}

/// A recorded diagnostic: the captured standard error of a command that ran
/// and failed, or the message of a command that could not be launched.
#[derive(Debug)]
pub enum Diagnostic {
    ToggleCommandFailed { stderr: Vec<u8> },
    ToggleLaunchFailed { message: String },
}

/// Mathematical model of a diagnostic.
pub enum DiagnosticModel {
    ToggleCommandFailed { stderr: Seq<u8> },
    ToggleLaunchFailed { message: Seq<char> },
}

impl View for Diagnostic {
    type V = DiagnosticModel;

    open spec fn view(&self) -> DiagnosticModel {
        match self {
            Diagnostic::ToggleCommandFailed { stderr } => DiagnosticModel::ToggleCommandFailed {
                stderr: stderr@,
            },
            Diagnostic::ToggleLaunchFailed { message } => DiagnosticModel::ToggleLaunchFailed {
                message: message@,
            },
        }
    }
}

/// The diagnostic a failed outcome leaves behind.
pub open spec fn diagnostic_of(o: CommandOutcomeModel) -> DiagnosticModel {
    match o {
        CommandOutcomeModel::Completed { stderr, .. } => DiagnosticModel::ToggleCommandFailed {
            stderr,
        },
        CommandOutcomeModel::LaunchFailed { message } => DiagnosticModel::ToggleLaunchFailed {
            message,
        },
    }
}

} // verus!
