use kanri::config::Profile;
use kanri::library::{DirScan, IoErrorKind, Library, LibraryError};
use kanri::program::ProgramError;
use kanri::template::{check_template, ProvisionState, ProvisionStep, Provisioner, TemplateError};

fn shell_profile() -> Profile {
    Profile {
        editor: "vim".to_string(),
        editor_args: vec![],
        editor_fork_mode: false,
        shell: "sh".to_string(),
        shell_args: vec!["-c".to_string()],
    }
}

fn empty_library() -> Library {
    let scan = DirScan { is_dir: true, entries: Ok(vec![]), ignore_file: Ok(None) };
    Library::new("/work", false, false, scan).unwrap()
}

fn commands(list: &[&str]) -> Vec<String> {
    list.iter().map(|c| c.to_string()).collect()
}

#[test]
fn failing_command_rolls_back_and_names_the_step() {
    let mut lib = empty_library();
    lib.create("demo", false, Ok(())).unwrap();
    let path = lib.project_path("demo");
    let mut p = Provisioner::new("demo", path, &shell_profile(), commands(&["cmd1", "cmd2"]), true);
    assert_eq!(p.current_state(), ProvisionState::Created);

    match p.next_step() {
        ProvisionStep::Run(o) => {
            assert_eq!(o.program, "sh");
            assert_eq!(o.args, vec!["-c", "cmd1"]);
            assert_eq!(o.cwd.as_deref(), Some("/work/demo"));
            assert!(!o.fork_mode);
            assert!(o.quiet);
            assert_eq!(o.env, Some(vec![("KANRI_PROJECT".to_string(), "demo".to_string())]));
        }
        other => panic!("expected a command, got {other:?}"),
    }
    p.command_finished(Ok(()));
    assert_eq!(p.current_state(), ProvisionState::Provisioning { next: 1 });

    match p.next_step() {
        ProvisionStep::Run(o) => assert_eq!(o.args, vec!["-c", "cmd2"]),
        other => panic!("expected a command, got {other:?}"),
    }
    p.command_finished(Err(ProgramError::NonZeroExitCode(3)));
    assert_eq!(p.current_state(), ProvisionState::RollingBack { failed: 1 });
    assert!(matches!(p.next_step(), ProvisionStep::Cleanup));

    let removed = lib.delete("demo", Ok(()));
    p.cleanup_finished(removed);
    assert!(!lib.contains("demo"));
    assert!(matches!(p.next_step(), ProvisionStep::Done));

    match p.finish() {
        Err(TemplateError::CommandFailed { command, cause, cleanup }) => {
            assert_eq!(command, "cmd2");
            assert!(matches!(cause, ProgramError::NonZeroExitCode(3)));
            assert!(cleanup.is_none());
        }
        other => panic!("expected a failed command, got {other:?}"),
    }
}

#[test]
fn failed_cleanup_is_reported_beside_the_command_error() {
    let mut lib = empty_library();
    lib.create("demo", false, Ok(())).unwrap();
    let mut p = Provisioner::new("demo", lib.project_path("demo"), &shell_profile(), commands(&["only"]), false);
    p.command_finished(Err(ProgramError::ProgramNotFound("sh".to_string())));
    let removed = lib.delete("demo", Err(IoErrorKind::PermissionDenied));
    p.cleanup_finished(removed);
    assert!(lib.contains("demo"));
    assert_eq!(
        p.current_state(),
        ProvisionState::RolledBack { failed: 0, cleanup: Some(LibraryError::FileSystemError) }
    );
    match p.finish() {
        Err(TemplateError::CommandFailed { command, cause, cleanup }) => {
            assert_eq!(command, "only");
            assert!(matches!(cause, ProgramError::ProgramNotFound(s) if s == "sh"));
            assert_eq!(cleanup, Some(LibraryError::FileSystemError));
        }
        other => panic!("expected a failed command, got {other:?}"),
    }
}

#[test]
fn all_commands_succeeding_completes() {
    let mut p = Provisioner::new("demo", "/work/demo".to_string(), &shell_profile(), commands(&["a", "b", "c"]), false);
    for _ in 0..3 {
        assert!(matches!(p.next_step(), ProvisionStep::Run(_)));
        p.command_finished(Ok(()));
    }
    assert_eq!(p.current_state(), ProvisionState::Completed);
    assert!(matches!(p.next_step(), ProvisionStep::Done));
    assert!(p.finish().is_ok());
}

#[test]
fn empty_template_is_complete_at_once() {
    let p = Provisioner::new("demo", "/work/demo".to_string(), &shell_profile(), vec![], false);
    assert_eq!(p.current_state(), ProvisionState::Completed);
    assert!(p.finish().is_ok());
}

#[test]
fn template_checks_come_before_creation() {
    let profile = shell_profile();
    let template = commands(&["x"]);
    assert!(matches!(
        check_template("web", None, &profile),
        Err(TemplateError::TemplateNotFound(n)) if n == "web"
    ));
    let no_shell = Profile { shell: String::new(), ..shell_profile() };
    assert!(matches!(
        check_template("web", Some(&template), &no_shell),
        Err(TemplateError::ShellNotConfigured)
    ));
    assert_eq!(check_template("web", Some(&template), &profile).unwrap(), template);
}
