//! The decisions behind the command-line commands; the caller does the reading,
//! asking, launching and saving around them.
use vstd::prelude::*;

pub mod config;
pub mod profiles;
pub mod root;
pub mod templates;

verus! {

/// Why a command cannot go on.
#[derive(Debug, Clone)]
pub enum CommandError {
    /// A profile with that name already exists.
    ProfileExists,
    /// No editor was given.
    EmptyEditor,
    /// No shell was given.
    EmptyShell,
    /// No profile has this name.
    ProfileNotFound(String),
    /// The profile names no editor.
    EditorNotSet,
    /// The profile names no program for what was asked.
    ProgramNotSet,
    /// Remembering the recent project is switched off.
    RecentDisabled,
    /// No recent project is remembered, so there is nothing to clear.
    NothingToClear,
    /// No recent project is remembered.
    NoRecentProject,
    /// The template text holds no command.
    NoCommands,
}

} // verus!
