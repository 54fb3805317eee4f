use agent_workflow::agents::analyze_go_project;
use agent_workflow::agents::analyze_java_project;
use agent_workflow::agents::analyze_nodejs_project;
use agent_workflow::agents::analyze_python_project;
use agent_workflow::agents::analyze_rust_output;
use agent_workflow::agents::analyze_rust_project;
use agent_workflow::agents::AnalysisType;
use agent_workflow::agents::count_severity;
use agent_workflow::agents::parse_lint_output;
use agent_workflow::agents::pending_analysis;
use agent_workflow::agents::AnalysisOptions;
use agent_workflow::agents::CodeAnalysisAgent;
use agent_workflow::agents::CodeAnalysisError;
use agent_workflow::agents::EffortLevel;
use agent_workflow::agents::Issue;
use agent_workflow::agents::IssueCategory;
use agent_workflow::agents::IssueSeverity;
use agent_workflow::agents::OutputFormat;
use agent_workflow::model::AgentCapability;
use agent_workflow::model::AgentError;
use agent_workflow::model::ProjectType;
use std::path::PathBuf;
use std::time::Duration;

fn issue(severity: IssueSeverity, file: &str) -> Issue {
    Issue {
        severity,
        category: IssueCategory::Correctness,
        file: PathBuf::from(file),
        line: Some(3),
        message: "m".to_string(),
        rule: "r".to_string(),
        suggestion: None,
    }
}

#[test]
fn the_code_analysis_agent_describes_itself() {
    let agent = CodeAnalysisAgent::new();
    assert_eq!(agent.name(), "code_analysis");
    assert_eq!(agent.version(), "1.0.0");
    assert_eq!(agent.description(), "Analyzes code quality, style, and potential issues");
    assert_eq!(
        agent.supported_project_types(),
        &[
            ProjectType::Rust,
            ProjectType::Nodejs,
            ProjectType::Python,
            ProjectType::Java,
            ProjectType::Go
        ]
    );
    assert_eq!(
        agent.capabilities(),
        &[AgentCapability::CodeAnalysis, AgentCapability::TestCoverage]
    );
    let profile = agent.profile();
    assert_eq!(profile.name, "code_analysis");
    assert_eq!(profile.version, "1.0.0");
    assert_eq!(profile.supported_types.len(), 5);
    assert_eq!(profile.capabilities.len(), 2);
}

#[test]
fn only_some_project_types_are_analysed() {
    let agent = CodeAnalysisAgent::new();
    for t in [ProjectType::Rust, ProjectType::Nodejs, ProjectType::Python, ProjectType::Java, ProjectType::Go] {
        assert!(agent.check_supported(t).is_ok());
    }
    for t in [
        ProjectType::Terraform,
        ProjectType::Docker,
        ProjectType::Generic,
    ] {
        match agent.check_supported(t) {
            Err(AgentError::UnsupportedProjectType(u)) => assert_eq!(u, t),
            other => panic!("unexpected {:?}", other),
        }
    }
}

#[test]
fn errors_of_the_analysis_as_errors_of_the_engine() {
    match AgentError::from_code_analysis(CodeAnalysisError::CommandFailed("x".to_string())) {
        AgentError::CodeAnalysis(m) => assert_eq!(m, "Command failed: x"),
        other => panic!("unexpected {:?}", other),
    }
    match AgentError::from_code_analysis(CodeAnalysisError::ParseError("y".to_string())) {
        AgentError::CodeAnalysis(m) => assert_eq!(m, "Parse error: y"),
        other => panic!("unexpected {:?}", other),
    }
    match AgentError::from_code_analysis(CodeAnalysisError::IoError("z".to_string())) {
        AgentError::Io(m) => assert_eq!(m, "z"),
        other => panic!("unexpected {:?}", other),
    }
    match AgentError::from_code_analysis(CodeAnalysisError::UnsupportedProjectType(ProjectType::Docker)) {
        AgentError::UnsupportedProjectType(t) => assert_eq!(t, ProjectType::Docker),
        other => panic!("unexpected {:?}", other),
    }
}

#[test]
fn options_of_an_analysis_by_default() {
    let options = AnalysisOptions::default();
    assert!(!options.strict_mode);
    assert!(options.include_tests);
    assert_eq!(options.output_format, OutputFormat::Json);
    assert!(options.custom_rules.is_empty());
}

#[test]
fn issues_in_the_output_of_the_lint() {
    let stdout: String = [
        "{\"reason\":\"compiler-artifact\",\"package_id\":\"x\"}\n",
        "{\"reason\":\"compiler-message\",\"message\":{\"level\":\"warning\",\"message\":\"unused variable\",",
        "\"code\":\"unused_variables\",\"spans\":[{\"file_name\":\"src/main.rs\",\"line_start\":7},",
        "{\"file_name\":\"src/other.rs\",\"line_start\":9}]}}\r\n",
        "not json at all\n",
        "\n",
        "{\"message\":{\"level\":\"error\",\"code\":{\"code\":\"E0308\"},\"spans\":[]}}\n",
        "{\"message\":{\"level\":\"note\",\"message\":\"n\",\"spans\":[{\"line_start\":4294967299}]}}\n",
        "{\"message\":{\"text\":\"no level\"}}\n",
        "{\"message\":{\"level\":null}}"
    ].concat();
    let issues = parse_lint_output(&stdout);
    assert_eq!(issues.len(), 4);
    assert_eq!(issues[0].severity, IssueSeverity::Warning);
    assert_eq!(issues[0].category, IssueCategory::Correctness);
    assert_eq!(issues[0].file, PathBuf::from("src/main.rs"));
    assert_eq!(issues[0].line, Some(7));
    assert_eq!(issues[0].message, "unused variable");
    assert_eq!(issues[0].rule, "unused_variables");
    assert_eq!(issues[0].suggestion, None);
    assert_eq!(issues[1].severity, IssueSeverity::Error);
    assert_eq!(issues[1].file, PathBuf::from(""));
    assert_eq!(issues[1].line, None);
    assert_eq!(issues[1].message, "Unknown issue");
    assert_eq!(issues[1].rule, "unknown");
    assert_eq!(issues[2].severity, IssueSeverity::Info);
    assert_eq!(issues[2].file, PathBuf::from(""));
    assert_eq!(issues[2].line, Some(3));
    assert_eq!(issues[2].message, "n");
    assert_eq!(issues[3].severity, IssueSeverity::Info);
    assert_eq!(issues[3].line, None);
    assert!(parse_lint_output("").is_empty());
}

#[test]
fn result_of_a_rust_analysis() {
    let clean = analyze_rust_output(vec![], true, true);
    assert!(clean.success);
    assert!(clean.issues.is_empty());
    assert_eq!(clean.metrics.issues_count, vec![(IssueSeverity::Error, 0), (IssueSeverity::Warning, 0)]);
    assert_eq!(clean.metrics.total_files, 0);
    assert_eq!(clean.metrics.total_lines, 0);
    assert_eq!(clean.metrics.coverage_percentage, None);
    assert_eq!(clean.metrics.complexity_score, None);
    assert_eq!(clean.suggestions.len(), 1);
    assert_eq!(clean.suggestions[0].title, "Code Quality Good");
    assert_eq!(clean.suggestions[0].description, "No significant issues found in code analysis");
    assert_eq!(clean.suggestions[0].priority, 1);
    assert_eq!(clean.suggestions[0].effort, EffortLevel::Low);
    assert!(clean.suggestions[0].files_affected.is_empty());
    assert_eq!(clean.execution_time, Duration::from_secs(0));

    let unformatted = analyze_rust_output(vec![], true, false);
    assert!(unformatted.success);
    assert_eq!(unformatted.issues.len(), 1);
    assert_eq!(unformatted.issues[0].severity, IssueSeverity::Style);
    assert_eq!(unformatted.issues[0].category, IssueCategory::Style);
    assert_eq!(unformatted.issues[0].file, PathBuf::from(""));
    assert_eq!(unformatted.issues[0].line, None);
    assert_eq!(unformatted.issues[0].message, "Code formatting issues found");
    assert_eq!(unformatted.issues[0].rule, "formatting");
    assert_eq!(
        unformatted.issues[0].suggestion.as_deref(),
        Some("Run 'cargo fmt' to fix formatting issues")
    );
    assert_eq!(unformatted.suggestions[0].title, "Address Clippy Warnings");
    assert_eq!(unformatted.suggestions[0].files_affected, vec![PathBuf::from("")]);

    let unchecked = analyze_rust_output(vec![], false, false);
    assert!(unchecked.issues.is_empty());

    let found = analyze_rust_output(
        vec![
            issue(IssueSeverity::Warning, "a.rs"),
            issue(IssueSeverity::Error, "b.rs"),
            issue(IssueSeverity::Warning, "a.rs"),
            issue(IssueSeverity::Info, "c.rs"),
        ],
        true,
        false,
    );
    assert!(!found.success);
    assert_eq!(found.issues.len(), 5);
    assert_eq!(found.issues[1].file, PathBuf::from("b.rs"));
    assert_eq!(found.metrics.issues_count, vec![(IssueSeverity::Error, 1), (IssueSeverity::Warning, 2)]);
    assert_eq!(found.suggestions.len(), 1);
    assert_eq!(found.suggestions[0].title, "Address Clippy Warnings");
    assert_eq!(found.suggestions[0].description, "Fix the clippy warnings to improve code quality");
    assert_eq!(found.suggestions[0].priority, 3);
    assert_eq!(found.suggestions[0].effort, EffortLevel::Medium);
    assert_eq!(
        found.suggestions[0].files_affected,
        vec![
            PathBuf::from("a.rs"),
            PathBuf::from("b.rs"),
            PathBuf::from("a.rs"),
            PathBuf::from("c.rs"),
            PathBuf::from("")
        ]
    );
    assert_eq!(count_severity(&found.issues, IssueSeverity::Style), 1);
    assert_eq!(count_severity(&found.issues, IssueSeverity::Info), 1);
    assert_eq!(count_severity(&Vec::new(), IssueSeverity::Error), 0);

    let warned = analyze_rust_output(vec![issue(IssueSeverity::Warning, "a.rs")], false, true);
    assert!(warned.success);
    assert_eq!(warned.metrics.issues_count, vec![(IssueSeverity::Error, 0), (IssueSeverity::Warning, 1)]);
}

#[test]
fn analyses_that_are_not_made_yet() {
    for (result, language) in [
        (analyze_nodejs_project(), "Node.js"),
        (analyze_python_project(), "Python"),
        (analyze_java_project(), "Java"),
        (analyze_go_project(), "Go"),
        (pending_analysis("Zig"), "Zig"),
    ] {
        assert!(result.success);
        assert!(result.issues.is_empty());
        assert!(result.metrics.issues_count.is_empty());
        assert_eq!(result.metrics.coverage_percentage, None);
        assert_eq!(result.suggestions.len(), 1);
        assert_eq!(result.suggestions[0].title, format!("{} Analysis", language));
        assert_eq!(
            result.suggestions[0].description,
            format!("{} code analysis not fully implemented", language)
        );
        assert_eq!(result.suggestions[0].priority, 1);
        assert_eq!(result.suggestions[0].effort, EffortLevel::Low);
        assert!(result.suggestions[0].files_affected.is_empty());
        assert_eq!(result.execution_time, Duration::from_secs(0));
    }
}

#[test]
fn rust_analysis_from_what_the_commands_gave() {
    let stdout = "{\"message\":{\"level\":\"warning\",\"message\":\"w\",\"spans\":[{\"file_name\":\"a.rs\",\"line_start\":1}]}}\n";
    let read = analyze_rust_project(true, stdout, AnalysisType::Lint, false);
    assert!(read.success);
    assert_eq!(read.issues.len(), 1);
    assert_eq!(read.issues[0].message, "w");
    assert_eq!(read.metrics.issues_count, vec![(IssueSeverity::Error, 0), (IssueSeverity::Warning, 1)]);
    assert_eq!(read.suggestions[0].title, "Address Clippy Warnings");
    let unread = analyze_rust_project(false, stdout, AnalysisType::Security, false);
    assert!(unread.issues.is_empty());
    assert_eq!(unread.suggestions[0].title, "Code Quality Good");
    let formatted = analyze_rust_project(false, stdout, AnalysisType::Format, true);
    assert!(formatted.issues.is_empty());
    let unformatted = analyze_rust_project(true, stdout, AnalysisType::Format, false);
    assert_eq!(unformatted.issues.len(), 2);
    assert_eq!(unformatted.issues[1].rule, "formatting");
    assert!(unformatted.success);
}
