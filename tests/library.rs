use kanri::library::{
    join_path, parse_ignore_file, CloneOptions, DirEntryInfo, DirScan, IoErrorKind, Library,
    LibraryError,
};
use kanri::naming::NameError;
use kanri::program::ProgramError;

fn dir(name: &str) -> DirEntryInfo {
    DirEntryInfo { name: name.to_string(), is_dir: true }
}

fn file(name: &str) -> DirEntryInfo {
    DirEntryInfo { name: name.to_string(), is_dir: false }
}

fn scan_of(entries: Vec<DirEntryInfo>, ignore: Option<&str>) -> DirScan {
    DirScan {
        is_dir: true,
        entries: Ok(entries),
        ignore_file: Ok(ignore.map(|s| s.to_string())),
    }
}

fn library(entries: Vec<DirEntryInfo>, display_hidden: bool) -> Library {
    Library::new("/root/projects", display_hidden, false, scan_of(entries, None)).unwrap()
}

fn names(lib: &Library) -> Vec<String> {
    lib.get_names()
}

#[test]
fn test_library_new() {
    let library = library(vec![], false);
    assert!(library.is_empty());
    let missing = DirScan { is_dir: false, entries: Ok(vec![]), ignore_file: Ok(None) };
    assert!(matches!(
        Library::new("/non/existent/path", false, false, missing),
        Err(LibraryError::InvalidPath)
    ));
}

#[test]
fn test_library_create_project() {
    let mut library = library(vec![], false);

    assert!(library.create("new_project", false, Ok(())).is_ok());
    assert!(library.contains("new_project"));

    assert!(matches!(
        library.create("new_project", true, Ok(())),
        Err(LibraryError::AlreadyExists)
    ));
}

#[test]
fn test_library_contains() {
    let library = library(vec![dir("test_project")], false);
    assert!(library.contains("test_project"));
    assert!(!library.contains("non_existent_project"));
}

#[test]
fn test_library_get() {
    let library = library(vec![dir("test_project")], false);
    assert!(library.get("test_project").is_ok());
    assert!(library.get("non_existent_project").is_err());
}

#[test]
fn test_hidden_projects() {
    let entries = vec![dir("visible_project"), dir(".hidden_project")];
    let library = library(entries.clone(), false);
    assert!(library.contains("visible_project"));
    assert!(!library.contains(".hidden_project"));

    let library_with_hidden = self::library(entries, true);
    assert!(library_with_hidden.contains("visible_project"));
    assert!(library_with_hidden.contains(".hidden_project"));
}

#[test]
fn test_library_rename() {
    let mut library = library(vec![], false);
    library.create("test", false, Ok(())).unwrap();
    assert!(library.get("test").is_ok());

    library.rename("test", "new_test", Ok(())).unwrap();
    assert!(library.get("new_test").is_ok());
    assert!(library.get("test").is_err());
}

#[test]
fn scan_leaves_out_hidden_and_system_directories() {
    let entries = vec![dir("a"), dir(".b"), dir("$RECYCLE.BIN")];
    assert_eq!(names(&library(entries.clone(), false)), vec!["a".to_string()]);
    assert_eq!(
        names(&library(entries, true)),
        vec!["a".to_string(), ".b".to_string()]
    );
}

#[test]
fn scan_leaves_out_ignored_names() {
    let entries = vec![dir("a"), dir("b"), dir("c"), dir("ab")];
    let lib = Library::new(
        "/root/projects",
        false,
        false,
        scan_of(entries.clone(), Some("a\n#comment\n\nb")),
    )
    .unwrap();
    assert_eq!(names(&lib), vec!["c".to_string(), "ab".to_string()]);
    let shown = Library::new(
        "/root/projects",
        true,
        false,
        scan_of(entries, Some("a\n#comment\n\nb")),
    )
    .unwrap();
    assert_eq!(names(&shown), vec!["c".to_string(), "ab".to_string()]);
}

#[test]
fn scan_leaves_out_files_and_keeps_listing_order() {
    let entries = vec![dir("zeta"), file("notes.txt"), dir("alpha"), dir("System Volume Information")];
    assert_eq!(
        names(&library(entries, true)),
        vec!["zeta".to_string(), "alpha".to_string()]
    );
}

#[test]
fn scan_errors_fail_the_whole_construction() {
    let unreadable = DirScan {
        is_dir: true,
        entries: Err(IoErrorKind::PermissionDenied),
        ignore_file: Ok(None),
    };
    assert!(matches!(
        Library::new("/root/projects", false, false, unreadable),
        Err(LibraryError::IoError(IoErrorKind::PermissionDenied))
    ));
    let bad_ignore = DirScan {
        is_dir: true,
        entries: Ok(vec![dir("a")]),
        ignore_file: Err(IoErrorKind::Other),
    };
    assert!(matches!(
        Library::new("/root/projects", false, false, bad_ignore),
        Err(LibraryError::IoError(IoErrorKind::Other))
    ));
}

#[test]
fn ignore_file_lines_are_trimmed_and_comments_skipped() {
    let parsed = parse_ignore_file("  a  \r\n# x\n\n\tb\n #indented comment\nc d\n");
    assert_eq!(parsed, vec!["a".to_string(), "b".to_string(), "c d".to_string()]);
}

#[test]
fn create_then_get_gives_path_under_root() {
    let mut lib = library(vec![dir("old")], false);
    assert_eq!(lib.plan_create("fresh", false).unwrap(), "/root/projects/fresh");
    lib.create("fresh", false, Ok(())).unwrap();
    let project = lib.get("fresh").unwrap();
    assert_eq!(project.name, "fresh");
    assert_eq!(project.path, "/root/projects/fresh");
    assert!(lib.contains("fresh"));
    assert_eq!(names(&lib), vec!["old".to_string(), "fresh".to_string()]);
}

#[test]
fn create_twice_reports_already_exists_and_changes_nothing() {
    let mut lib = library(vec![], false);
    lib.create("twice", false, Ok(())).unwrap();
    let before = names(&lib);
    assert!(matches!(lib.plan_create("twice", false), Err(LibraryError::AlreadyExists)));
    assert!(matches!(lib.create("twice", false, Ok(())), Err(LibraryError::AlreadyExists)));
    assert_eq!(names(&lib), before);
}

#[test]
fn create_validates_the_name() {
    let mut lib = library(vec![], false);
    assert!(matches!(
        lib.create("a/b", false, Ok(())),
        Err(LibraryError::InvalidProjectName(NameError::InvalidCharacters))
    ));
    assert!(matches!(
        lib.create("", false, Ok(())),
        Err(LibraryError::InvalidProjectName(NameError::Empty))
    ));
    assert!(lib.is_empty());
}

#[test]
fn create_failure_of_the_directory_leaves_index_alone() {
    let mut lib = library(vec![], false);
    assert!(matches!(
        lib.create("p", false, Err(IoErrorKind::PermissionDenied)),
        Err(LibraryError::IoError(IoErrorKind::PermissionDenied))
    ));
    assert!(!lib.contains("p"));
}

#[test]
fn delete_removes_only_on_success() {
    let mut lib = library(vec![dir("a"), dir("b"), dir("c")], false);
    assert!(matches!(
        lib.delete("b", Err(IoErrorKind::Other)),
        Err(LibraryError::FileSystemError)
    ));
    assert!(lib.contains("b"));
    lib.delete("b", Ok(())).unwrap();
    assert_eq!(names(&lib), vec!["a".to_string(), "c".to_string()]);
}

#[test]
fn failed_rename_keeps_both_names_as_they_were() {
    let mut lib = library(vec![dir("old")], false);
    assert!(matches!(
        lib.rename("old", "new", Err(IoErrorKind::PermissionDenied)),
        Err(LibraryError::FailedToRename(IoErrorKind::PermissionDenied))
    ));
    assert!(lib.contains("old"));
    assert!(!lib.contains("new"));
}

#[test]
fn rename_checks() {
    let mut lib = library(vec![dir("a"), dir("b")], false);
    assert!(matches!(lib.rename("zz", "c", Ok(())), Err(LibraryError::ProjectNotFound)));
    assert!(matches!(lib.rename("a", "b", Ok(())), Err(LibraryError::AlreadyExists)));
    assert!(matches!(
        lib.rename("a", "$RECYCLE.BIN", Ok(())),
        Err(LibraryError::InvalidProjectName(NameError::SystemName))
    ));
    let (from, to) = lib.plan_rename("a", "c").unwrap();
    assert_eq!(from, "/root/projects/a");
    assert_eq!(to, "/root/projects/c");
    lib.rename("a", "c", Ok(())).unwrap();
    assert_eq!(names(&lib), vec!["b".to_string(), "c".to_string()]);
    assert_eq!(lib.get("c").unwrap().path, "/root/projects/c");
}

#[test]
fn windows_library_refuses_device_names() {
    let mut lib = Library::new("C:/p", false, true, scan_of(vec![], None)).unwrap();
    assert!(matches!(
        lib.create("con", false, Ok(())),
        Err(LibraryError::InvalidProjectName(NameError::ReservedName))
    ));
    let mut unix = library(vec![], false);
    assert!(unix.create("con", false, Ok(())).is_ok());
}

#[test]
fn get_vec_lists_projects_with_paths() {
    let lib = library(vec![dir("x"), dir("y")], false);
    let all = lib.get_vec();
    assert_eq!(all.len(), 2);
    assert_eq!(all[0].name, "x");
    assert_eq!(all[0].path, "/root/projects/x");
    assert_eq!(all[1].name, "y");
    assert_eq!(all[1].path, "/root/projects/y");
    assert!(matches!(lib.get("q"), Err(LibraryError::ProjectNotFound)));
}

#[test]
fn join_path_uses_one_separator() {
    assert_eq!(join_path("/root", "x"), "/root/x");
    assert_eq!(join_path("/root/", "x"), "/root/x");
    assert_eq!(join_path("", "x"), "x");
}

#[test]
fn clone_builds_git_launch() {
    let lib = library(vec![], false);
    let options = CloneOptions {
        remote: "https://example.org/r.git".to_string(),
        branch: Some("dev".to_string()),
        name: Some("r2".to_string()),
    };
    let launch = lib.clone(&options);
    assert_eq!(launch.program, "git");
    assert_eq!(
        launch.args,
        vec!["clone", "https://example.org/r.git", "r2", "-b", "dev"]
    );
    assert_eq!(launch.cwd.as_deref(), Some("/root/projects"));
    assert!(!launch.fork_mode);
    let plain = lib.clone(&CloneOptions { remote: "u".to_string(), ..CloneOptions::default() });
    assert_eq!(plain.args, vec!["clone", "u"]);
    assert!(Library::clone_result(Ok(())).is_ok());
    assert!(matches!(
        Library::clone_result(Err(ProgramError::NonZeroExitCode(128))),
        Err(LibraryError::CloneFailed)
    ));
}

#[test]
fn stale_index_entry_checks_the_name_before_the_index() {
    let mut lib = library(vec![dir("a:b"), dir("kept")], false);
    assert!(matches!(
        lib.create("a:b", false, Ok(())),
        Err(LibraryError::InvalidProjectName(NameError::InvalidCharacters))
    ));
    assert!(matches!(lib.create("kept", false, Ok(())), Err(LibraryError::AlreadyExists)));
    assert!(matches!(lib.create("bad:name", true, Ok(())), Err(LibraryError::AlreadyExists)));
    assert_eq!(names(&lib), vec!["a:b".to_string(), "kept".to_string()]);
}

#[test]
fn delete_and_rename_drop_the_old_name() {
    let mut lib = library(vec![dir("a"), dir("b")], false);
    lib.delete("a", Ok(())).unwrap();
    assert!(!lib.contains("a"));
    lib.rename("b", "c", Ok(())).unwrap();
    assert!(!lib.contains("b"));
    assert!(lib.contains("c"));
}
