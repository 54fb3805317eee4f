use agent_workflow::model::AgentError;
use agent_workflow::model::DependencySource;
use agent_workflow::project_detector::ProjectDetector;
use agent_workflow::project_detector::parse_dependencies;
use std::path::PathBuf;
#[test]
fn test_parse_python_dependency() {
    let detector = ProjectDetector::new(PathBuf::from("."));

    assert_eq!(
        detector.parse_python_dependency("requests>=2.28.0"),
        Some(("requests".to_string(), "2.28.0".to_string()))
    );

    assert_eq!(
        detector.parse_python_dependency("django==4.1.0"),
        Some(("django".to_string(), "4.1.0".to_string()))
    );

    assert_eq!(
        detector.parse_python_dependency("numpy"),
        Some(("numpy".to_string(), "latest".to_string()))
    );

    assert_eq!(detector.parse_python_dependency("# comment"), None);
}

fn parsed(text: &str) -> Option<(String, String)> {
    ProjectDetector::new(PathBuf::from(".")).parse_python_dependency(text)
}

fn pair(name: &str, version: &str) -> Option<(String, String)> {
    Some((name.to_string(), version.to_string()))
}

#[test]
fn python_requirement_is_cut_at_the_first_mark_in_the_order_of_the_marks() {
    assert_eq!(parsed("  flask  >=  2.0  "), pair("flask", "2.0"));
    assert_eq!(parsed("a==1>=2"), pair("a==1", "2"));
    assert_eq!(parsed("a>=1==2"), pair("a", "1==2"));
    assert_eq!(parsed("django~=4.0"), pair("django", "=4.0"));
    assert_eq!(parsed("pkg~=>1.0"), pair("pkg", ">1.0"));
    assert_eq!(parsed("pkg>1.0"), pair("pkg", "1.0"));
    assert_eq!(parsed("pkg<2"), pair("pkg", "2"));
    assert_eq!(parsed("pkg<2>1"), pair("pkg<2", "1"));
    assert_eq!(parsed(">=1"), pair("", "1"));
    assert_eq!(parsed("x>="), pair("x", ""));
    assert_eq!(parsed(" numpy "), pair(" numpy ", "latest"));
    assert_eq!(parsed(""), None);
    assert_eq!(parsed("   # note >=1"), None);
    assert_eq!(parsed("#"), None);
    assert_eq!(parsed("a#b"), pair("a#b", "latest"));
}

#[test]
fn configuration_files_are_known_whatever_their_case() {
    for name in [
        "Cargo.toml", "package.json", "pom.xml", "build.gradle", "requirements.txt",
        "pyproject.toml", "go.mod", "composer.json", "Gemfile", "mix.exs", "project.clj",
        "sbt.sbt", "build.sbt", "CMakeLists.txt", "meson.build", "Makefile", "Dockerfile",
        "docker-compose.yml", "terraform.tf", "main.tf", "vars.tf", "CARGO.TOML",
    ] {
        assert!(ProjectDetector::is_config_file(name), "{}", name);
    }
    for name in ["", "cargo.lock", "main.rs", "package.json5", "xcargo.toml", "yarn.lock"] {
        assert!(!ProjectDetector::is_config_file(name), "{}", name);
    }
    assert_eq!(ProjectDetector::new(PathBuf::from("/p")).project_path(), &PathBuf::from("/p"));
}

#[test]
fn files_of_a_project_are_taken_note_of() {
    let mut detector = ProjectDetector::new(PathBuf::from("/p"));
    assert!(detector.scan_file(PathBuf::from("/p/src/main.rs"), "fn main() {}").is_ok());
    assert!(detector.scan_file(PathBuf::from("/"), "requests==1.0").is_ok());
    assert!(detector.config_files().is_empty());
    assert!(detector.dependencies().is_empty());
    assert!(detector.scan_file(PathBuf::from("/p/Makefile"), "all:\n\techo requests==1.0").is_ok());
    assert_eq!(detector.config_files(), &vec![PathBuf::from("/p/Makefile")]);
    assert!(detector.dependencies().is_empty());
    assert!(detector
        .scan_file(PathBuf::from("/p/REQUIREMENTS.TXT"), "requests==2.0\n# a comment\nflask\n")
        .is_ok());
    assert!(detector
        .scan_file(PathBuf::from("/p/sub/package.json"), "{\"dependencies\": {\"left-pad\": \"^1.3.0\"}}")
        .is_ok());
    match detector.scan_file(PathBuf::from("/p/Cargo.toml"), "[dependencies\nserde = 1") {
        Err(AgentError::Configuration(_)) => {}
        other => panic!("unexpected {:?}", other),
    }
    assert_eq!(
        detector.config_files(),
        &vec![
            PathBuf::from("/p/Makefile"),
            PathBuf::from("/p/REQUIREMENTS.TXT"),
            PathBuf::from("/p/sub/package.json")
        ]
    );
    let found: Vec<(String, String)> =
        detector.dependencies().iter().map(|d| (d.name.clone(), d.version.clone())).collect();
    assert_eq!(
        found,
        vec![
            ("requests".to_string(), "2.0".to_string()),
            ("flask".to_string(), "latest".to_string()),
            ("left-pad".to_string(), "^1.3.0".to_string())
        ]
    );
    assert!(matches!(detector.dependencies()[0].source, DependencySource::Pip));
    assert!(matches!(detector.dependencies()[2].source, DependencySource::Npm));
    assert_eq!(detector.project_path(), &PathBuf::from("/p"));
    assert!(matches!(parse_dependencies("notes.txt", "requests==1.0"), Ok(None)));
    assert!(matches!(parse_dependencies("Go.Mod", "require x v1"), Ok(Some(_))));
    assert!(matches!(parse_dependencies("package.json", "{"), Err(AgentError::Configuration(_))));
}
