use kanri::commands::config::{handle_edit as edit_config, handle_recent};
use kanri::commands::profiles::{handle_new, handle_set, known_editor};
use kanri::commands::root::{open_options, record_recent};
use kanri::commands::templates::{commands_from_text, handle_edit as edit_templates};
use kanri::commands::CommandError;
use kanri::config::{default_profile, shell_args_for, AutocompleteOptions, GeneralOptions, Profile, RecentOptions};
use kanri::library::IoErrorKind;
use kanri::program::{exit_result, spawn_error, ProgramError};

fn profile(editor: &str, shell: &str) -> Profile {
    Profile {
        editor: editor.to_string(),
        editor_args: vec!["--wait".to_string()],
        editor_fork_mode: true,
        shell: shell.to_string(),
        shell_args: vec!["-c".to_string()],
    }
}

fn names(list: &[&str]) -> Vec<String> {
    list.iter().map(|s| s.to_string()).collect()
}

#[test]
fn edit_commands_open_the_file_in_the_editor() {
    let o = edit_config(&profile("nano", "sh"), "/cfg/config.toml").unwrap();
    assert_eq!(o.program, "nano");
    assert_eq!(o.args, vec!["--wait", "/cfg/config.toml"]);
    assert!(!o.fork_mode && !o.quiet && o.cwd.is_none() && o.env.is_none());
    let t = edit_templates(&profile("nano", "sh"), "/cfg/templates.toml").unwrap();
    assert_eq!(t.args, vec!["--wait", "/cfg/templates.toml"]);
    assert!(matches!(edit_config(&profile("", "sh"), "x"), Err(CommandError::EditorNotSet)));
    assert!(matches!(edit_templates(&profile("", "sh"), "x"), Err(CommandError::EditorNotSet)));
}

#[test]
fn recent_command_shows_and_clears() {
    let mut r = RecentOptions { enabled: true, recent_project: "foo".to_string() };
    assert_eq!(handle_recent(&mut r, false).unwrap(), Some("foo".to_string()));
    assert_eq!(handle_recent(&mut r, true).unwrap(), None);
    assert_eq!(r.recent_project, "");
    assert!(matches!(handle_recent(&mut r, true), Err(CommandError::NothingToClear)));
    assert!(matches!(handle_recent(&mut r, false), Err(CommandError::NoRecentProject)));
    let mut off = RecentOptions { enabled: false, recent_project: "foo".to_string() };
    assert!(matches!(handle_recent(&mut off, true), Err(CommandError::RecentDisabled)));
    assert_eq!(off.recent_project, "foo");
}

#[test]
fn recording_recent_reports_changes() {
    let mut r = RecentOptions::default();
    assert!(record_recent(&mut r, "a"));
    assert_eq!(r.recent_project, "a");
    assert!(!record_recent(&mut r, "a"));
    let mut off = RecentOptions { enabled: false, recent_project: String::new() };
    assert!(!record_recent(&mut off, "a"));
    assert_eq!(off.recent_project, "");
}

#[test]
fn new_profile_from_answers() {
    let existing = names(&["default"]);
    let p = handle_new(&existing, "work", "code", false, "pwsh", false).unwrap();
    assert_eq!(p.editor, "code");
    assert!(p.editor_fork_mode);
    assert_eq!(p.editor_args, vec!["."]);
    assert_eq!(p.shell_args, vec!["-NoLogo", "-Command"]);
    let w = handle_new(&existing, "work", "code", false, "bash", true).unwrap();
    assert_eq!(w.editor, "code.cmd");
    assert_eq!(w.shell_args, vec!["-c"]);
    let z = handle_new(&existing, "work", "zed", false, "bash", true).unwrap();
    assert_eq!(z.editor, "zed");
    let v = handle_new(&existing, "work", "vim", false, "zsh", true).unwrap();
    assert_eq!(v.editor, "vim");
    assert!(!v.editor_fork_mode);
    assert!(v.editor_args.is_empty());
    assert!(handle_new(&existing, "work", "vim", true, "zsh", true).unwrap().editor_fork_mode);
    assert!(matches!(handle_new(&existing, "default", "vim", false, "sh", false), Err(CommandError::ProfileExists)));
    assert!(matches!(handle_new(&existing, "w", "", false, "sh", false), Err(CommandError::EmptyEditor)));
    assert!(matches!(handle_new(&existing, "w", "vim", false, "", false), Err(CommandError::EmptyShell)));
    assert!(known_editor("cursor.cmd"));
    assert!(!known_editor("emacs"));
}

#[test]
fn set_profile_needs_an_existing_one() {
    let existing = names(&["default", "work"]);
    let mut options = GeneralOptions::with_projects_directory("/p".to_string());
    assert_eq!(options.current_profile, "default");
    handle_set(&existing, &mut options, "work").unwrap();
    assert_eq!(options.current_profile, "work");
    assert!(matches!(handle_set(&existing, &mut options, "gone"), Err(CommandError::ProfileNotFound(n)) if n == "gone"));
    assert_eq!(options.current_profile, "work");
}

#[test]
fn open_options_for_shell_and_editor() {
    let p = profile("code", "bash");
    let s = open_options(&p, "/p/x", true).unwrap();
    assert_eq!(s.program, "bash");
    assert!(s.args.is_empty());
    assert_eq!(s.env, Some(vec![("KANRI_SESSION".to_string(), "1".to_string())]));
    assert_eq!(s.cwd.as_deref(), Some("/p/x"));
    let e = open_options(&p, "/p/x", false).unwrap();
    assert_eq!(e.program, "code");
    assert_eq!(e.args, vec!["--wait"]);
    assert!(e.fork_mode);
    assert!(matches!(open_options(&profile("", "bash"), "/p/x", false), Err(CommandError::ProgramNotSet)));
    assert!(matches!(open_options(&profile("vi", ""), "/p/x", true), Err(CommandError::ProgramNotSet)));
}

#[test]
fn template_text_keeps_lines_without_hash() {
    let cmds = commands_from_text("# Write your command here\ngit init\n\necho hi\n#skip").unwrap();
    assert_eq!(cmds, vec!["git init", "", "echo hi"]);
    assert!(matches!(commands_from_text("# only a comment\n"), Err(CommandError::NoCommands)));
    assert!(matches!(commands_from_text(""), Err(CommandError::NoCommands)));
}

#[test]
fn default_profiles_per_platform_program() {
    let p = default_profile("code", "zsh");
    assert!(p.editor_fork_mode);
    assert_eq!(p.editor_args, vec!["."]);
    assert_eq!(p.shell_args, vec!["-c"]);
    let q = default_profile("nano", "cmd.exe");
    assert!(!q.editor_fork_mode);
    assert!(q.editor_args.is_empty());
    assert_eq!(q.shell_args, vec!["/C"]);
    assert_eq!(shell_args_for("powershell.exe"), vec!["-NoLogo", "-Command"]);
    let d = Profile::default();
    assert!(d.editor.is_empty() && d.shell.is_empty());
    let a = AutocompleteOptions::default();
    assert!(a.enabled && a.always_accept);
}

#[test]
fn process_outcomes_are_classified() {
    assert!(matches!(spawn_error("ed", IoErrorKind::NotFound, "m".to_string()), ProgramError::ProgramNotFound(p) if p == "ed"));
    assert!(matches!(spawn_error("ed", IoErrorKind::PermissionDenied, "m".to_string()), ProgramError::NoPermission));
    assert!(matches!(spawn_error("ed", IoErrorKind::Interrupted, "m".to_string()), ProgramError::ProcessInterrupted));
    assert!(matches!(spawn_error("ed", IoErrorKind::Other, "boom".to_string()), ProgramError::UnexpectedError(m) if m == "boom"));
    assert!(exit_result(true, Some(0)).is_ok());
    assert!(matches!(exit_result(false, Some(2)), Err(ProgramError::NonZeroExitCode(2))));
    assert!(matches!(exit_result(false, None), Err(ProgramError::ProcessInterrupted)));
}

#[test]
fn template_text_lines_end_at_newline_or_crlf() {
    let cmds = commands_from_text("x\r\n\ny\r").unwrap();
    assert_eq!(cmds, vec!["x", "", "y\r"]);
}
