//! How a command that the server ran came out.

use vstd::prelude::*;
use vstd::string::*;

verus! {

/// The outcome of a command.
#[derive(Debug)]
pub enum CommandOutcome {
    /// The command could not be started.
    NotStarted { error: String },
    /// The command was started, but its end could not be awaited.
    Lost { error: String },
    /// The command ended, with what it wrote.
    Exited { success: bool, stdout: Vec<u8>, stderr: Vec<u8> },
}

/// What a `CommandOutcome` says.
pub enum CommandView {
    NotStarted { error: Seq<char> },
    Lost { error: Seq<char> },
    Exited { success: bool, stdout: Seq<u8>, stderr: Seq<u8> },
}

impl View for CommandOutcome {
    type V = CommandView;

    open spec fn view(&self) -> CommandView {
        match self {
            CommandOutcome::NotStarted { error } => CommandView::NotStarted { error: error@ },
            CommandOutcome::Lost { error } => CommandView::Lost { error: error@ },
            CommandOutcome::Exited { success, stdout, stderr } => CommandView::Exited {
                success: *success,
                stdout: stdout@,
                stderr: stderr@,
            },
        }
    }
}

/// The view of a result whose value and error are strings.
pub open spec fn result_text(r: Result<String, String>) -> Result<Seq<char>, Seq<char>> {
    match r {
        Ok(s) => Ok(s@),
        Err(s) => Err(s@),
    }
}

} // verus!
