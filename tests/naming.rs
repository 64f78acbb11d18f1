use kanri::naming::{is_system_directory, validate_project_name, NameError};

#[test]
fn validator_rejects_bad_names() {
    for windows in [false, true] {
        assert_eq!(validate_project_name("", windows), Err(NameError::Empty));
        assert_eq!(validate_project_name("a/b", windows), Err(NameError::InvalidCharacters));
        assert_eq!(validate_project_name(".", windows), Err(NameError::DotName));
        assert_eq!(validate_project_name("..", windows), Err(NameError::DotName));
    }
}

#[test]
fn validator_rejects_device_names_on_windows_in_any_case() {
    assert_eq!(validate_project_name("con", true), Err(NameError::ReservedName));
    assert_eq!(validate_project_name("CON", true), Err(NameError::ReservedName));
    assert_eq!(validate_project_name("Lpt7", true), Err(NameError::ReservedName));
    assert_eq!(validate_project_name("com1", true), Err(NameError::ReservedName));
    assert_eq!(validate_project_name("COM0", true), Ok(()));
    assert_eq!(validate_project_name("console", true), Ok(()));
    assert_eq!(validate_project_name("con", false), Ok(()));
}

#[test]
fn validator_accepts_plain_names() {
    assert_eq!(validate_project_name("my-project_1", false), Ok(()));
    assert_eq!(validate_project_name("my-project_1", true), Ok(()));
    assert_eq!(validate_project_name(".config", false), Ok(()));
}

#[test]
fn validator_rejects_each_unsafe_character() {
    for c in ['/', '\\', ':', '*', '?', '"', '<', '>', '|'] {
        let name = format!("x{c}y");
        assert_eq!(validate_project_name(&name, false), Err(NameError::InvalidCharacters));
    }
}

#[test]
fn validator_rejects_system_directories_in_any_case() {
    assert_eq!(validate_project_name("$RECYCLE.BIN", false), Err(NameError::SystemName));
    assert_eq!(validate_project_name("$recycle.bin", false), Err(NameError::SystemName));
    assert_eq!(validate_project_name("system volume information", false), Err(NameError::SystemName));
    assert_eq!(validate_project_name(".Trash-1000", false), Err(NameError::SystemName));
}

#[test]
fn system_directory_match_is_exact() {
    assert!(is_system_directory("$RECYCLE.BIN"));
    assert!(is_system_directory("msdownld.tmp"));
    assert!(!is_system_directory("$recycle.bin"));
    assert!(!is_system_directory("projects"));
}
