//! Errors of the window-manager commands.

use vstd::prelude::*;

verus! {

/// Why a window-manager command did not complete.
#[derive(Clone, Copy, Debug, PartialEq, Eq, Structural)]
pub enum WmError {
    /// No container is focused, or the focused container lies in no workspace.
    NoFocusedWorkspace,
    /// The workspace to show has no monitor, or its monitor displays nothing.
    NoDisplayedWorkspace,
    /// The workspace to activate is already active or is not in the user config.
    WorkspaceNotFound,
    /// No monitor could be found to hold a newly activated workspace.
    NoTargetMonitor,
}

/// The text of each error, as the window manager reports it.
pub open spec fn error_message(e: WmError) -> Seq<char> {
    match e {
        WmError::NoFocusedWorkspace => "No workspace is currently focused."@,
        WmError::NoDisplayedWorkspace => "No workspace is currently displayed."@,
        WmError::WorkspaceNotFound => "Workspace with the given name doesn't exist or is already active."@,
        WmError::NoTargetMonitor => "Failed to get a target monitor for the workspace."@,
    }
}

impl WmError {
    /// The text of the error.
    pub fn message(&self) -> (s: &'static str)
        ensures
            s@ == error_message(*self),
    {
        match self {
            WmError::NoFocusedWorkspace => "No workspace is currently focused.",
            WmError::NoDisplayedWorkspace => "No workspace is currently displayed.",
            WmError::WorkspaceNotFound => "Workspace with the given name doesn't exist or is already active.",
            WmError::NoTargetMonitor => "Failed to get a target monitor for the workspace.",
        }
    }
}

} // verus!
