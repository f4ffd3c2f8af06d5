pub mod agents;
pub mod cli;
pub mod commands;
pub mod kernel;
pub mod providers;
pub mod schemas;
pub mod tui;
