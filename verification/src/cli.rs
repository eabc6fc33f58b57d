use vstd::prelude::*;

use crate::flow::{FlowAction, FlowKind};

verus! {

/// A command of the command-line program.
#[derive(Debug, Clone, PartialEq, Eq)]
pub enum Command {
    Feature { name: String, action: FlowAction },
    Release { name: String, action: FlowAction },
    Hotfix { name: String, action: FlowAction },
    Bugfix { name: String, action: FlowAction },
    /// Open the window, on the named folder if any.
    Gui { path: Option<String> },
}

/// Where a command leads: a flow to run in the terminal, or the window.
#[derive(Debug, Clone, PartialEq, Eq)]
pub enum Route {
    Flow { kind: FlowKind, action: FlowAction, name: String },
    Gui { path: Option<String> },
}

/// The flow that a command names, if it names one: its kind, action and
/// name.
pub open spec fn command_flow(c: Command) -> Option<(FlowKind, FlowAction, Seq<char>)> {
    match c {
        Command::Feature { name, action } => Some((FlowKind::Feature, action, name@)),
        Command::Release { name, action } => Some((FlowKind::Release, action, name@)),
        Command::Hotfix { name, action } => Some((FlowKind::Hotfix, action, name@)),
        Command::Bugfix { name, action } => Some((FlowKind::Bugfix, action, name@)),
        Command::Gui { .. } => None,
    }
}

/// Sends each flow command to the flow of its kind, with its action and
/// name, and the window command to the window with its folder.
pub fn route(command: Command) -> (r: Route)
    ensures
        match command_flow(command) {
            Some((kind, action, name)) => r matches Route::Flow { kind: k, action: a, name: n }
                && k == kind && a == action && n@ == name,
            None => r == (Route::Gui { path: command->Gui_path }),
        },
{
    match command {
        Command::Feature { name, action } => Route::Flow { kind: FlowKind::Feature, action, name },
        Command::Release { name, action } => Route::Flow { kind: FlowKind::Release, action, name },
        Command::Hotfix { name, action } => Route::Flow { kind: FlowKind::Hotfix, action, name },
        Command::Bugfix { name, action } => Route::Flow { kind: FlowKind::Bugfix, action, name },
        Command::Gui { path } => Route::Gui { path },
    }
}

/// The exit code with which the command-line program stops after a flow:
/// 1 when the flow failed; none when it succeeded, and the program ends
/// normally.
pub fn exit_code_after(result: &Result<(), String>) -> (code: Option<i32>)
    ensures
        code == (if result is Err { Some(1i32) } else { None }),
{
    match result {
        Ok(()) => None,
        Err(_) => Some(1),
    }
}

} // verus!
