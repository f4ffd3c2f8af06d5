//! The command line: the commands the program accepts and their options.
//! Paths are kept as text. Parsing the arguments belongs to the program
//! around this library.

use vstd::prelude::*;

verus! {

/// The parsed command line: a command, or none for the interactive UI.
#[derive(Debug, Clone, PartialEq, Eq)]
pub struct Cli {
    pub command: Option<Commands>,
}

/// The program's commands.
#[derive(Debug, Clone, PartialEq, Eq)]
pub enum Commands {
    Init { force: bool, dry_run: bool },
    Run {
        step: Option<String>,
        dry_run: bool,
        /// Manual mode: prompts are written to files and the answers awaited.
        manual: bool,
        /// Type a new plan in the terminal before running.
        new_plan: bool,
        /// Work through the tasks of an approved plan.
        plan: Option<String>,
    },
    Audit { patch: Option<String>, dry_run: bool },
    Apply { patch: Option<String>, dry_run: bool },
    Status {
        json: bool,
        short: bool,
        /// The project's run history.
        history: bool,
        /// The audit trail of one run.
        run_id: Option<String>,
    },
    Session { command: SessionCommands },
    Plan { command: PlanCommands },
}

/// The `session` subcommands.
#[derive(Debug, Clone, PartialEq, Eq)]
pub enum SessionCommands {
    /// Lists the registered sessions.
    List,
    /// Ends a session by its process id.
    Kill { pid: u32 },
}

/// The `plan` subcommands.
#[derive(Debug, Clone, PartialEq, Eq)]
pub enum PlanCommands {
    /// Creates a plan.
    New { title: Option<String> },
    /// Finishes planning: locks the todo list and exports the final version.
    Finalize { plan_id: String },
    /// Continues planning, with the Architect's CLI, the optional second
    /// planner's CLI and a turn limit.
    Continue { plan_id: Option<String>, cli1: String, cli2: Option<String>, max_turns: usize },
    /// Deletes a plan with its tasks, turns and versions.
    Delete { plan_id: String, yes: bool },
}

/// The turn limit of `plan continue` when none is given.
pub const DEFAULT_MAX_TURNS: usize = 10;

} // verus!
