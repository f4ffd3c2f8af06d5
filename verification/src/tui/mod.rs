//! The terminal UI's state and decisions: views, key handling, the panes of
//! the running agents and the forms that collect a command's fields.

pub mod agent_terminal;
pub mod clipboard;
pub mod deep_scan;
pub mod home;
pub mod plan_selector;
pub mod memory;
pub mod dashboard;
pub mod running;
pub mod prompt;
pub mod state;

use vstd::prelude::*;

use crate::kernel::stream::GateDecision;
use crate::tui::agent_terminal::AgentTerminalRole;
use crate::tui::prompt::PromptState;

verus! {

/// The screens of the UI.
#[derive(Debug, Clone, PartialEq, Eq)]
pub enum AppView {
    Home,
    Selector(SelectorCtx),
    Dashboard,
    Memory,
    Prompt(PromptState),
    Executing,
    Gate,
}

/// What a plan is being picked for.
#[derive(Debug, Clone, Copy, PartialEq, Eq)]
pub enum SelectorCtx {
    ForDashboard,
    ForContinue,
    ForDev,
}

/// What the main loop does after a key.
#[derive(Debug, Clone, PartialEq, Eq)]
pub enum LoopCmd {
    Continue,
    Quit,
    GoTo(AppView),
    StartPlanning { plan_id: String, cli1: String, cli2: Option<String>, initial_notes: String, max_turns: usize },
    StartDev { plan_id: String, cli_dev: String, cli_audit: Option<String> },
    StartScan,
    CreatePlan { title: String },
    GateDecide(GateDecision),
    LoadDashboard(String),
    ReloadDashboard,
    LoadMemory(String),
    SaveSetup { dev_cli: String, audit_cli: Option<String> },
    OpenMemory,
    /// Read the home screen's memory feed again.
    ReloadMemoryFeed,
    /// Read this memory page for the browser.
    ReadMemoryPage(String),
    /// Copy this pane's text to the clipboard.
    CopyPane(AgentTerminalRole),
}

/// A key press, as the UI's handlers see it.
#[derive(Debug, Clone, Copy, PartialEq, Eq)]
pub enum Key {
    Char(char),
    Enter,
    Esc,
    Tab,
    Up,
    Down,
    PageUp,
    PageDown,
    Backspace,
    /// Any other key.
    Other,
}

} // verus!
