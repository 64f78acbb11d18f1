//! The settings that the library's operations read: profiles of programs,
//! general options, and the options of name resolution and recent projects.
use vstd::prelude::*;
use crate::library::IoErrorKind;
use crate::text::{owned, same_text, views};

verus! {

/// Errors of loading, saving and reading the configuration.
#[derive(Debug, Clone)]
pub enum ConfigError {
    WriteFailed,
    FormatFailed,
    FileNotFound,
    BadConfiguration(String),
    ProfileNotFound(String),
    FileSystemError(IoErrorKind),
}

/// The programs of one profile: an editor and a shell, each with its arguments.
#[derive(Debug, Clone)]
pub struct Profile {
    pub editor: String,
    pub editor_args: Vec<String>,
    pub editor_fork_mode: bool,
    pub shell: String,
    pub shell_args: Vec<String>,
}

impl Default for Profile {
    fn default() -> (r: Profile)
        ensures
            r.editor@.len() == 0,
            r.editor_args@.len() == 0,
            !r.editor_fork_mode,
            r.shell@.len() == 0,
            r.shell_args@.len() == 0,
    {
        Profile {
            editor: String::new(),
            editor_args: Vec::new(),
            editor_fork_mode: false,
            shell: String::new(),
            shell_args: Vec::new(),
        }
    }
}

/// Where the projects are, which profile is in use, and whether hidden
/// directories count as projects.
#[derive(Debug, Clone)]
pub struct GeneralOptions {
    pub projects_directory: String,
    pub current_profile: String,
    pub display_hidden: bool,
}

impl GeneralOptions {
    /// The options for a projects directory: the profile `default`, hidden
    /// directories left out.
    pub fn with_projects_directory(projects_directory: String) -> (r: GeneralOptions)
        ensures
            r.projects_directory@ == projects_directory@,
            r.current_profile@ == "default"@,
            !r.display_hidden,
    {
        GeneralOptions { projects_directory, current_profile: owned("default"), display_hidden: false }
    }
}

/// Whether typed names are completed, and whether a completion is taken
/// without asking.
#[derive(Debug, Clone, Copy)]
pub struct AutocompleteOptions {
    pub enabled: bool,
    pub always_accept: bool,
}

impl Default for AutocompleteOptions {
    fn default() -> (r: AutocompleteOptions)
        ensures
            r.enabled,
            r.always_accept,
    {
        AutocompleteOptions { enabled: true, always_accept: true }
    }
}

/// Whether the last opened project is remembered, and its name.
#[derive(Debug, Clone)]
pub struct RecentOptions {
    pub enabled: bool,
    pub recent_project: String,
}

impl Default for RecentOptions {
    fn default() -> (r: RecentOptions)
        ensures
            r.enabled,
            r.recent_project@.len() == 0,
    {
        RecentOptions { enabled: true, recent_project: String::new() }
    }
}

/// Editors that open a directory given as `.` and run detached from the terminal.
pub open spec fn is_gui_editor(e: Seq<char>) -> bool {
    ||| e == "code"@
    ||| e == "code-insiders"@
    ||| e == "codium"@
    ||| e == "code-oss"@
    ||| e == "windsurf"@
    ||| e == "zed"@
}

/// The arguments that make `shell` run one command given after them.
pub open spec fn default_shell_args(shell: Seq<char>) -> Seq<Seq<char>> {
    if shell == "powershell.exe"@ || shell == "powershell"@ || shell == "pwsh.exe"@ || shell == "pwsh"@ {
        seq!["-NoLogo"@, "-Command"@]
    } else if shell == "cmd"@ || shell == "cmd.exe"@ {
        seq!["/C"@]
    } else {
        seq!["-c"@]
    }
}

fn gui_editor(e: &str) -> (r: bool)
    ensures
        r == is_gui_editor(e@),
{
    same_text(e, "code") || same_text(e, "code-insiders") || same_text(e, "codium") || same_text(
        e,
        "code-oss",
    ) || same_text(e, "windsurf") || same_text(e, "zed")
}

/// The arguments that make `shell` run one command.
pub fn shell_args_for(shell: &str) -> (r: Vec<String>)
    ensures
        views(r@) == default_shell_args(shell@),
{
    let r = if same_text(shell, "powershell.exe") || same_text(shell, "powershell") || same_text(
        shell,
        "pwsh.exe",
    ) || same_text(shell, "pwsh") {
        vec![owned("-NoLogo"), owned("-Command")]
    } else if same_text(shell, "cmd") || same_text(shell, "cmd.exe") {
        vec![owned("/C")]
    } else {
        vec![owned("-c")]
    };
    assert(views(r@) =~= default_shell_args(shell@));
    r
}

/// The profile that a fresh configuration holds for the platform's editor and
/// shell: a GUI editor opens `.` detached; the shell gets the arguments that
/// make it run one command.
pub fn default_profile(editor: &str, shell: &str) -> (r: Profile)
    ensures
        r.editor@ == editor@,
        r.editor_fork_mode == is_gui_editor(editor@),
        views(r.editor_args@) == (if is_gui_editor(editor@) {
            seq!["."@]
        } else {
            Seq::<Seq<char>>::empty()
        }),
        r.shell@ == shell@,
        views(r.shell_args@) == default_shell_args(shell@),
{
    let gui = gui_editor(editor);
    let editor_args = if gui {
        vec![owned(".")]
    } else {
        Vec::new()
    };
    assert(views(editor_args@) =~= (if gui {
        seq!["."@]
    } else {
        Seq::<Seq<char>>::empty()
    }));
    Profile {
        editor: owned(editor),
        editor_args,
        editor_fork_mode: gui,
        shell: owned(shell),
        shell_args: shell_args_for(shell),
    }
}

} // verus!
