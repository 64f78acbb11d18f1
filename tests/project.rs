use kanri::library::Project;
use tempfile::TempDir;

struct TestContext {
    temp_dir: TempDir,
}

impl TestContext {
    fn setup() -> Self {
        let temp_dir = tempfile::tempdir().unwrap();
        Self { temp_dir }
    }

    fn path_string(&self) -> String {
        self.temp_dir.path().to_str().unwrap().to_string()
    }
}

#[test]
fn test_project_new() {
    let context = TestContext::setup();
    let path = context.path_string();
    let project = Project {
        name: "test_project".to_string(),
        path: path.clone(),
    };

    assert_eq!(project.name.as_str(), "test_project");
    assert_eq!(project.path.as_str(), path.as_str());
}

#[test]
fn test_project_get_name() {
    let context = TestContext::setup();
    let project = Project {
        name: "test_project".to_string(),
        path: context.path_string(),
    };
    assert_eq!(project.name.as_str(), "test_project");
}

#[test]
fn test_project_get_path_str() {
    let context = TestContext::setup();
    let path = context.path_string();
    let path_str = path.as_str();
    let project = Project {
        name: "test_project".to_string(),
        path: context.path_string(),
    };
    assert_eq!(project.path.as_str(), path_str);
}

#[test]
fn project_new_keeps_name_and_path() {
    let project = Project::new("alpha", "/work/alpha".to_string());
    assert_eq!(project.name, "alpha");
    assert_eq!(project.path, "/work/alpha");
}
