//! Pactrack keeps track of pending package updates on Arch Linux: those of
//! the official repositories and, through a helper, those of the user
//! repository.
//!
//! This library holds the rules: how a check for updates proceeds, how what
//! the package tools print is read, how the published status follows from
//! what a check found, and when the next check is due. Running programs,
//! touching files and waiting are left to the caller, who is told what to do
//! and tells how it went.

pub mod check;
pub mod commands;
pub mod config;
pub mod detect;
pub mod icons;
pub mod notifier;
pub mod parser;
pub mod paths;
pub mod scheduler;
pub mod scratch;
pub mod state;
pub mod terminal;
pub mod text;
pub mod tray;
