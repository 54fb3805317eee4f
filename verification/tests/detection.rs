use agent_workflow::detection::detect_framework;
use agent_workflow::detection::detect_language_from_files;
use agent_workflow::detection::detect_package_manager;
use agent_workflow::detection::detect_project;
use agent_workflow::detection::detect_project_type;
use agent_workflow::detection::ProjectFiles;
use agent_workflow::model::AgentError;
use agent_workflow::model::Dependency;
use agent_workflow::model::DependencySource;
use agent_workflow::model::ProjectInfo;
use agent_workflow::model::ProjectType;
use agent_workflow::project_detector::parse_cargo_dependencies;
use agent_workflow::project_detector::parse_dependencies;
use agent_workflow::project_detector::parse_npm_dependencies;
use agent_workflow::project_detector::parse_pyproject_dependencies;
use agent_workflow::project_detector::ProjectDetector;
use std::path::PathBuf;

fn nothing() -> ProjectFiles {
    ProjectFiles {
        cargo_toml: None,
        package_json: None,
        requirements_txt: None,
        pyproject_toml: None,
        pom_xml: None,
        build_gradle: None,
        go_mod: false,
        main_tf: false,
        terraform_tf: false,
        dockerfile: false,
        docker_compose: false,
        yarn_lock: false,
        pnpm_lock: false,
        extensions: vec![],
    }
}

fn describe(files: &ProjectFiles) -> ProjectInfo {
    detect_project(PathBuf::from("/p"), files, vec![], vec![]).unwrap()
}

fn pairs(deps: &[Dependency]) -> Vec<(String, String)> {
    deps.iter().map(|d| (d.name.clone(), d.version.clone())).collect()
}

fn expect(list: &[(&str, &str)]) -> Vec<(String, String)> {
    list.iter().map(|(n, v)| (n.to_string(), v.to_string())).collect()
}

fn text(s: &str) -> Option<String> {
    Some(s.to_string())
}

const CARGO_TOML: &str = r#"
[package]
name = "test-project"
version = "0.1.0"
edition = "2021"

[dependencies]
tokio = { version = "1.0", features = ["full"] }
serde = { version = "1.0", features = ["derive"] }
"#;

const PACKAGE_JSON: &str = r#"
{
  "name": "test-project",
  "version": "1.0.0",
  "dependencies": {
    "express": "^4.18.0",
    "lodash": "^4.17.21"
  },
  "devDependencies": {
    "jest": "^29.0.0",
    "typescript": "^4.9.0"
  }
}
"#;

const REQUIREMENTS: &str = r#"
requests>=2.28.0
django==4.1.0
numpy>=1.21.0
pytest>=7.0.0
"#;

#[test]
fn test_detect_rust_project() {
    let files = ProjectFiles { cargo_toml: text(CARGO_TOML), ..nothing() };
    let project_info = describe(&files);

    assert!(matches!(project_info.project_type, ProjectType::Rust));
    assert_eq!(project_info.language, "rust");
    assert_eq!(project_info.build_system, Some("cargo".to_string()));
    assert_eq!(project_info.package_manager, Some("cargo".to_string()));
    assert_eq!(project_info.framework, Some("tokio".to_string()));
}

#[test]
fn test_detect_nodejs_project() {
    let files = ProjectFiles { package_json: text(PACKAGE_JSON), ..nothing() };
    let project_info = describe(&files);

    assert!(matches!(project_info.project_type, ProjectType::Nodejs));
    assert_eq!(project_info.language, "javascript");
    assert_eq!(project_info.build_system, Some("npm".to_string()));
    assert_eq!(project_info.package_manager, Some("npm".to_string()));
    assert_eq!(project_info.framework, Some("express".to_string()));
}

#[test]
fn test_detect_python_project() {
    let files = ProjectFiles { requirements_txt: text(REQUIREMENTS), ..nothing() };
    let project_info = describe(&files);

    assert!(matches!(project_info.project_type, ProjectType::Python));
    assert_eq!(project_info.language, "python");
    assert_eq!(project_info.build_system, Some("pip".to_string()));
    assert_eq!(project_info.package_manager, Some("pip".to_string()));
    assert_eq!(project_info.framework, Some("django".to_string()));
}

#[test]
fn kinds_are_told_in_a_fixed_order() {
    let mut files = ProjectFiles {
        cargo_toml: text(""),
        package_json: text("not json"),
        requirements_txt: text(""),
        pom_xml: text(""),
        go_mod: true,
        main_tf: true,
        dockerfile: true,
        ..nothing()
    };
    assert_eq!(detect_project_type(&files).unwrap(), ProjectType::Rust);
    files.cargo_toml = None;
    assert!(matches!(detect_project_type(&files), Err(AgentError::Configuration(_))));
    assert!(matches!(
        detect_project(PathBuf::from("/p"), &files, vec![], vec![]),
        Err(AgentError::Configuration(_))
    ));
    files.package_json = text("{\"devDependencies\": {\"vue\": \"3\", \"@angular/core\": \"1\"}}");
    assert_eq!(detect_project_type(&files).unwrap(), ProjectType::Vue);
    files.package_json = text("{\"dependencies\": {\"@angular/core\": \"1\"}}");
    assert_eq!(detect_project_type(&files).unwrap(), ProjectType::Angular);
    files.package_json = text("{\"dependencies\": {\"react\": 1}, \"devDependencies\": {\"vue\": 2}}");
    assert_eq!(detect_project_type(&files).unwrap(), ProjectType::React);
    files.package_json = text("[]");
    assert_eq!(detect_project_type(&files).unwrap(), ProjectType::Nodejs);
    files.package_json = None;
    assert_eq!(detect_project_type(&files).unwrap(), ProjectType::Python);
    files.requirements_txt = None;
    assert_eq!(detect_project_type(&files).unwrap(), ProjectType::Java);
    files.pom_xml = None;
    assert_eq!(detect_project_type(&files).unwrap(), ProjectType::Go);
    files.go_mod = false;
    assert_eq!(detect_project_type(&files).unwrap(), ProjectType::Terraform);
    files.main_tf = false;
    assert_eq!(detect_project_type(&files).unwrap(), ProjectType::Docker);
    files.dockerfile = false;
    assert_eq!(detect_project_type(&files).unwrap(), ProjectType::Generic);
    files.docker_compose = true;
    assert_eq!(detect_project_type(&files).unwrap(), ProjectType::Docker);
    files.terraform_tf = true;
    assert_eq!(detect_project_type(&files).unwrap(), ProjectType::Terraform);
    files.pyproject_toml = text("");
    assert_eq!(detect_project_type(&files).unwrap(), ProjectType::Python);
}

#[test]
fn language_by_census() {
    let census = |list: &[&str]| {
        detect_language_from_files(&list.iter().map(|e| e.to_string()).collect())
    };
    assert_eq!(census(&[]), "unknown");
    assert_eq!(census(&["txt", "md", "RS"]), "unknown");
    assert_eq!(census(&["py", "js", "py", "jsx", "ts"]), "javascript");
    assert_eq!(census(&["py", "js", "py", "jsx", "ts", "py"]), "python");
    assert_eq!(census(&["css", "scss", "sass", "cc", "cpp", "cxx", "c"]), "cpp");
    assert_eq!(census(&["sass", "c"]), "c");
    assert_eq!(census(&["sql", "sh", "html", "php", "rb", "cs", "go", "java", "tsx"]), "typescript");
    let generic = ProjectFiles { extensions: vec!["go".to_string()], ..nothing() };
    let info = describe(&generic);
    assert_eq!(info.project_type, ProjectType::Generic);
    assert_eq!(info.language, "go");
    assert_eq!(info.framework, None);
    assert_eq!(info.build_system, None);
    assert_eq!(info.package_manager, None);
    assert_eq!(info.root_path, PathBuf::from("/p"));
}

#[test]
fn frameworks_by_kind() {
    let node = |json: &str| {
        detect_framework(&ProjectFiles { package_json: text(json), ..nothing() }, ProjectType::Nodejs)
            .unwrap()
    };
    assert_eq!(node("{}"), None);
    assert_eq!(node("{\"dependencies\": {\"koa\": \"1\", \"next\": \"2\"}}"), text("next"));
    assert_eq!(node("{\"devDependencies\": {\"hapi\": \"1\"}}"), text("hapi"));
    assert_eq!(node("{\"dependencies\": {\"@angular/core\": \"1\", \"nestjs\": \"2\"}}"), text("angular"));
    assert_eq!(node("{\"dependencies\": [\"express\"]}"), None);
    let python = |requirements: Option<&str>, pyproject: Option<&str>| {
        detect_framework(
            &ProjectFiles {
                requirements_txt: requirements.map(|s| s.to_string()),
                pyproject_toml: pyproject.map(|s| s.to_string()),
                ..nothing()
            },
            ProjectType::Python,
        )
    };
    assert_eq!(python(Some("numpy\n  Flask==2\ndjango"), None).unwrap(), text("flask"));
    assert_eq!(python(Some("djangorestframework"), None).unwrap(), text("django"));
    assert_eq!(python(Some("x-django"), Some("not toml [")).is_err(), true);
    assert_eq!(python(Some("x"), Some("\"tool.flit\" = 1\n\"tool.setuptools\" = 2")).unwrap(), text("flit"));
    assert_eq!(python(None, Some("[tool.poetry]\nname = \"x\"")).unwrap(), None);
    assert_eq!(python(None, Some("\"tool.poetry\" = true")).unwrap(), text("poetry"));
    assert_eq!(python(None, None).unwrap(), None);
    let java = |pom: Option<&str>, gradle: Option<&str>| {
        detect_framework(
            &ProjectFiles {
                pom_xml: pom.map(|s| s.to_string()),
                build_gradle: gradle.map(|s| s.to_string()),
                ..nothing()
            },
            ProjectType::Java,
        )
        .unwrap()
    };
    assert_eq!(java(Some("<artifactId>Spring-Core</artifactId> quarkus-core"), None), text("spring"));
    assert_eq!(java(Some("<x/>"), Some("id 'org.springframework.boot'")), text("spring-boot"));
    assert_eq!(java(Some("<x/>"), Some("ORG.SPRINGFRAMEWORK io.vertx")), text("vertx"));
    assert_eq!(java(None, Some("plugins {}")), None);
    let rust = |cargo: &str| {
        detect_framework(&ProjectFiles { cargo_toml: text(cargo), ..nothing() }, ProjectType::Rust)
    };
    assert_eq!(rust("[dependencies]\nyew = \"1\"\nwarp = \"2\"").unwrap(), text("warp"));
    assert_eq!(rust("[dev-dependencies]\naxum = \"1\"").unwrap(), None);
    assert!(matches!(rust("= broken"), Err(AgentError::Configuration(_))));
    assert_eq!(detect_framework(&nothing(), ProjectType::Vue).unwrap(), text("vue"));
    assert_eq!(detect_framework(&nothing(), ProjectType::React).unwrap(), text("react"));
    assert_eq!(detect_framework(&nothing(), ProjectType::Angular).unwrap(), text("angular"));
    assert_eq!(detect_framework(&nothing(), ProjectType::Go).unwrap(), None);
}

#[test]
fn package_managers_by_kind() {
    let mut files = ProjectFiles { yarn_lock: true, pnpm_lock: true, ..nothing() };
    assert_eq!(detect_package_manager(&files, ProjectType::React).unwrap(), text("yarn"));
    files.yarn_lock = false;
    assert_eq!(detect_package_manager(&files, ProjectType::Vue).unwrap(), text("pnpm"));
    files.pnpm_lock = false;
    assert_eq!(detect_package_manager(&files, ProjectType::Nodejs).unwrap(), text("npm"));
    assert_eq!(detect_package_manager(&files, ProjectType::Python).unwrap(), text("pip"));
    files.pyproject_toml = text("\"tool.flit\" = 1");
    assert_eq!(detect_package_manager(&files, ProjectType::Python).unwrap(), text("flit"));
    files.pyproject_toml = text("x = 1");
    assert_eq!(detect_package_manager(&files, ProjectType::Python).unwrap(), text("pip"));
    files.pyproject_toml = text("x = ");
    assert!(detect_package_manager(&files, ProjectType::Python).is_err());
    assert_eq!(detect_package_manager(&files, ProjectType::Java).unwrap(), None);
    files.build_gradle = text("");
    assert_eq!(detect_package_manager(&files, ProjectType::Java).unwrap(), text("gradle"));
    files.pom_xml = text("");
    assert_eq!(detect_package_manager(&files, ProjectType::Java).unwrap(), text("maven"));
    assert_eq!(detect_package_manager(&files, ProjectType::Go).unwrap(), text("go"));
    assert_eq!(detect_package_manager(&files, ProjectType::Docker).unwrap(), None);
    assert_eq!(detect_package_manager(&files, ProjectType::Terraform).unwrap(), None);
}

#[test]
fn manifests_in_json_and_toml() {
    let cargo = parse_cargo_dependencies(CARGO_TOML).unwrap();
    assert_eq!(pairs(&cargo), expect(&[("serde", "1.0"), ("tokio", "1.0")]));
    assert!(cargo.iter().all(|d| matches!(d.source, DependencySource::Cargo)));
    let odd = parse_cargo_dependencies(
        "[dependencies]\nplain = \"0.1\"\nlocal = { path = \"../x\" }\nnumber = 3\nbad = { version = 2 }\n",
    )
    .unwrap();
    assert_eq!(pairs(&odd), expect(&[("plain", "0.1")]));
    assert_eq!(pairs(&parse_cargo_dependencies("[package]\nname = \"x\"").unwrap()), expect(&[]));
    assert!(matches!(parse_cargo_dependencies("[["), Err(AgentError::Configuration(_))));
    let npm = parse_npm_dependencies(PACKAGE_JSON).unwrap();
    assert_eq!(
        pairs(&npm),
        expect(&[
            ("express", "^4.18.0"),
            ("lodash", "^4.17.21"),
            ("jest", "^29.0.0"),
            ("typescript", "^4.9.0"),
        ])
    );
    assert!(npm.iter().all(|d| matches!(d.source, DependencySource::Npm)));
    assert_eq!(
        pairs(&parse_npm_dependencies("{\"dependencies\": {\"a\": 1, \"b\": \"2\"}}").unwrap()),
        expect(&[("b", "2")])
    );
    assert!(matches!(parse_npm_dependencies("{"), Err(AgentError::Configuration(_))));
    let pyproject = parse_pyproject_dependencies(
        "\"project.dependencies\" = [\"requests>=2\", 3, \"# no\", \"numpy\"]\n\"build-system.requires\" = [\"setuptools==1\"]\n[project]\ndependencies = [\"hidden\"]\n",
    )
    .unwrap();
    assert_eq!(
        pairs(&pyproject),
        expect(&[("requests", "2"), ("numpy", "latest"), ("setuptools", "1")])
    );
    assert!(pyproject.iter().all(|d| matches!(d.source, DependencySource::Pip)));
}

#[test]
fn dependencies_by_file_name() {
    assert!(matches!(parse_dependencies("README.md", "x==1"), Ok(None)));
    assert!(matches!(parse_dependencies("Dockerfile", "x==1"), Ok(None)));
    let by = |name: &str, content: &str| pairs(&parse_dependencies(name, content).unwrap().unwrap());
    assert_eq!(by("Requirements.TXT", "x==1"), expect(&[("x", "1")]));
    assert_eq!(by("go.mod", "require a v1"), expect(&[("a", "v1")]));
    assert_eq!(by("build.gradle", "api \"g:a\""), expect(&[("g", "a")]));
    assert_eq!(by("pom.xml", "x"), expect(&[]));
    assert_eq!(by("Cargo.toml", "[dependencies]\na = \"1\""), expect(&[("a", "1")]));
    assert_eq!(by("package.json", "{\"dependencies\":{\"a\":\"1\"}}"), expect(&[("a", "1")]));
    assert_eq!(by("pyproject.toml", "\"project.dependencies\" = [\"a<2\"]"), expect(&[("a", "2")]));
    assert!(parse_dependencies("cargo.toml", "[").is_err());
    assert!(parse_dependencies("package.json", "").is_err());
}

#[test]
fn detector_describes_what_it_has_scanned() {
    let mut detector = ProjectDetector::new(PathBuf::from("/work/app"));
    detector.scan_file(PathBuf::from("/work/app/Cargo.toml"), CARGO_TOML).unwrap();
    detector.scan_file(PathBuf::from("/work/app/src/lib.rs"), "").unwrap();
    detector.scan_file(PathBuf::from("/work/app/Dockerfile"), "FROM scratch").unwrap();
    let files = ProjectFiles { cargo_toml: text(CARGO_TOML), dockerfile: true, ..nothing() };
    let info = detector.into_project_info(&files).unwrap();
    assert_eq!(info.project_type, ProjectType::Rust);
    assert_eq!(info.language, "rust");
    assert_eq!(info.build_system.as_deref(), Some("cargo"));
    assert_eq!(info.root_path, PathBuf::from("/work/app"));
    assert_eq!(
        info.config_files,
        vec![PathBuf::from("/work/app/Cargo.toml"), PathBuf::from("/work/app/Dockerfile")]
    );
    assert_eq!(pairs(&info.dependencies), pairs(&parse_cargo_dependencies(CARGO_TOML).unwrap()));
    let broken = ProjectDetector::new(PathBuf::from("/work/web"))
        .into_project_info(&ProjectFiles { package_json: text("{"), ..nothing() });
    assert!(matches!(broken, Err(AgentError::Configuration(_))));
}
