use agent_workflow::mcp_tools::copilot_review_handler;
use agent_workflow::mcp_tools::copilot_review_request;
use agent_workflow::mcp_tools::generate_documentation_handler;
use agent_workflow::mcp_tools::texts_value;
use agent_workflow::mcp_tools::execute_workflow_request;
use agent_workflow::mcp_tools::generate_copilot_review;
use agent_workflow::mcp_tools::generate_project_documentation;
use agent_workflow::mcp_tools::number_of;
use agent_workflow::mcp_tools::required_text;
use agent_workflow::mcp_tools::text_or;
use agent_workflow::mcp_tools::texts_of;
use agent_workflow::mcp_tools::truth_or;
use agent_workflow::mcp_tools::validate_input_schema;
use agent_workflow::mcp_tools::MCPTool;
use agent_workflow::mcp_tools::MCPToolRegistry;
use agent_workflow::model::AgentError;
use agent_workflow::model::ProjectInfo;
use agent_workflow::model::ProjectType;
use agent_workflow::project_config::generate_project_config;
use agent_workflow::project_config::generate_project_config_for_type;
use serde_json::Value;
use std::path::PathBuf;

fn json(text: &str) -> Value {
    serde_json::from_str(text).unwrap()
}

fn configuration_error<T: std::fmt::Debug>(result: Result<T, AgentError>) -> String {
    match result {
        Err(AgentError::Configuration(m)) => m,
        other => panic!("expected a configuration error, got {:?}", other),
    }
}

#[test]
fn test_tool_registry() {
    let registry = MCPToolRegistry::new();

    assert!(registry.list_tools().contains(&"execute_claude_copilot_workflow"));
    assert!(registry.list_tools().contains(&"detect_project_type"));
    assert!(registry.list_tools().contains(&"generate_workflow_config"));
}

#[test]
fn default_tools_with_their_schemas() {
    let registry = MCPToolRegistry::new();
    assert_eq!(
        registry.list_tools(),
        vec![
            "execute_claude_copilot_workflow",
            "detect_project_type",
            "generate_workflow_config",
            "analyze_code_quality",
            "security_scan",
            "copilot_review",
            "performance_analysis",
            "test_coverage_analysis",
            "generate_documentation",
        ]
    );
    let tool = registry.get_tool("copilot_review").unwrap();
    assert_eq!(tool.name, "copilot_review");
    assert_eq!(tool.description, "Generate Copilot review for code changes");
    assert_eq!(
        tool.input_schema,
        json(
            r#"{
                "type": "object",
                "properties": {
                    "project_path": {"type": "string", "description": "Path to the project directory"},
                    "pr_number": {"type": "integer", "description": "Pull request number"},
                    "focus_areas": {
                        "type": "array",
                        "items": {
                            "type": "string",
                            "enum": ["code_quality", "security", "performance", "maintainability", "testing", "documentation"]
                        },
                        "description": "Areas to focus the review on"
                    },
                    "depth": {
                        "type": "string",
                        "enum": ["basic", "detailed", "comprehensive"],
                        "default": "detailed",
                        "description": "Review depth"
                    }
                },
                "required": ["project_path", "pr_number"]
            }"#
        )
    );
    assert_eq!(
        tool.output_schema,
        json(
            r#"{
                "type": "object",
                "properties": {
                    "review_comments": {"type": "array", "items": {"type": "string"}},
                    "suggestions": {"type": "array", "items": {"type": "string"}},
                    "overall_score": {"type": "number"},
                    "focus_areas": {"type": "array", "items": {"type": "string"}},
                    "execution_time": {"type": "number"}
                }
            }"#
        )
    );
    for name in registry.list_tools() {
        let tool = registry.get_tool(name).unwrap();
        assert_eq!(tool.input_schema["type"], "object");
        assert_eq!(tool.input_schema["required"][0], "project_path");
        assert!(tool.input_schema["properties"]["project_path"].is_object());
        assert_eq!(tool.output_schema["type"], "object");
        assert!(tool.output_schema["properties"].is_object());
    }
    assert_eq!(
        registry.get_tool("security_scan").unwrap().input_schema["properties"]["scan_code"]["default"],
        Value::Bool(true)
    );
    assert!(registry.get_tool("no_such_tool").is_none());
}

#[test]
fn registering_a_tool_again_replaces_it() {
    let mut registry = MCPToolRegistry::new();
    registry.register_tool(MCPTool {
        name: "security_scan".to_string(),
        description: "mine".to_string(),
        input_schema: json("{\"required\": [\"a\", 1, \"b\"]}"),
        output_schema: Value::Null,
    });
    registry.register_tool(MCPTool {
        name: "extra".to_string(),
        description: "new".to_string(),
        input_schema: Value::Null,
        output_schema: Value::Null,
    });
    let names = registry.list_tools();
    assert_eq!(names.len(), 10);
    assert_eq!(names[4], "security_scan");
    assert_eq!(names[9], "extra");
    assert_eq!(registry.get_tool("security_scan").unwrap().description, "mine");
    assert_eq!(
        configuration_error(registry.check_tool_call("security_scan", &json("{\"a\": null}"))),
        "Missing required field: b"
    );
    assert!(registry.check_tool_call("security_scan", &json("{\"a\": 1, \"b\": 2}")).is_ok());
    assert!(registry.check_tool_call("extra", &Value::Null).is_ok());
    assert_eq!(
        configuration_error(registry.check_tool_call("missing", &json("{}"))),
        "Tool 'missing' not found"
    );
}

#[test]
fn detection_tool_call_is_checked_against_its_schema() {
    let registry = MCPToolRegistry::new();
    let input = json("{\"project_path\": \"/nonexistent/path\"}");
    assert!(registry.check_tool_call("detect_project_type", &input).is_ok());
    assert_eq!(
        configuration_error(registry.check_tool_call("detect_project_type", &json("{}"))),
        "Missing required field: project_path"
    );
}

#[test]
fn required_fields_of_a_schema() {
    let schema = json("{\"required\": [\"path\", 7, \"kind\"]}");
    assert!(validate_input_schema(&schema, &json("{\"path\": 1, \"kind\": null}")).is_ok());
    assert_eq!(
        configuration_error(validate_input_schema(&schema, &json("{\"kind\": 1}"))),
        "Missing required field: path"
    );
    assert_eq!(
        configuration_error(validate_input_schema(&schema, &json("[\"path\", \"kind\"]"))),
        "Missing required field: path"
    );
    assert!(validate_input_schema(&json("{\"required\": \"path\"}"), &json("{}")).is_ok());
    assert!(validate_input_schema(&json("[\"required\"]"), &json("{}")).is_ok());
    assert!(validate_input_schema(&json("{}"), &Value::Null).is_ok());
}

#[test]
fn fields_of_an_input() {
    let input = json(
        "{\"s\": \"text\", \"n\": 5, \"neg\": -1, \"t\": true, \"list\": [\"a\", 1, \"b\", null]}",
    );
    assert_eq!(required_text(&input, "s").unwrap(), "text");
    assert_eq!(configuration_error(required_text(&input, "n")), "Missing n");
    assert_eq!(configuration_error(required_text(&input, "zz")), "Missing zz");
    assert_eq!(text_or(&input, "s", "d"), "text");
    assert_eq!(text_or(&input, "t", "d"), "d");
    assert_eq!(truth_or(&input, "t", false), true);
    assert_eq!(truth_or(&input, "s", true), true);
    assert_eq!(truth_or(&input, "zz", false), false);
    assert_eq!(number_of(&input, "n"), Some(5));
    assert_eq!(number_of(&input, "neg"), None);
    assert_eq!(number_of(&input, "s"), None);
    assert_eq!(texts_of(&input, "list"), vec!["a", "b"]);
    assert_eq!(texts_of(&input, "s"), Vec::<String>::new());
    assert_eq!(texts_of(&Value::Null, "list"), Vec::<String>::new());
}

#[test]
fn requests_of_the_tools() {
    let request = execute_workflow_request(&json(
        "{\"project_path\": \"/p\", \"workflow_type\": \"pr_review\", \"pr_number\": 12}",
    ))
    .unwrap();
    assert_eq!(request.project_path, "/p");
    assert_eq!(request.workflow_type, "pr_review");
    assert_eq!(request.pr_number, Some(12));
    assert_eq!(
        configuration_error(execute_workflow_request(&json("{\"workflow_type\": \"x\"}"))),
        "Missing project_path"
    );
    assert_eq!(
        configuration_error(execute_workflow_request(&json("{\"project_path\": \"x\"}"))),
        "Missing workflow_type"
    );
    let review = copilot_review_request(&json(
        "{\"project_path\": \"/p\", \"pr_number\": 3, \"focus_areas\": [\"security\", 2]}",
    ))
    .unwrap();
    assert_eq!(review.pr_number, 3);
    assert_eq!(review.focus_areas, vec!["security"]);
    assert_eq!(review.depth, "detailed");
    assert_eq!(
        configuration_error(copilot_review_request(&json("{\"project_path\": \"/p\"}"))),
        "Missing pr_number"
    );
    assert_eq!(
        configuration_error(copilot_review_request(&json("{\"pr_number\": 1}"))),
        "Missing project_path"
    );
}

#[test]
fn stub_results() {
    let review = generate_copilot_review(77, vec!["testing".to_string()]);
    assert_eq!(review.overall_score, 88);
    assert_eq!(review.summary, "Comprehensive review for PR #77");
    assert_eq!(review.focus_areas, vec!["testing"]);
    assert_eq!(review.comments.len(), 2);
    assert_eq!(review.suggestions[0], "Add unit tests for the new functionality");
    let doc = generate_project_documentation("api", "html");
    assert_eq!(doc.generated_files, vec!["README.html"]);
    assert_eq!(doc.summary, "api documentation generated in html format");
    assert!(doc.content.starts_with("# Project Documentation"));
}

fn rust_project() -> ProjectInfo {
    ProjectInfo {
        project_type: ProjectType::Rust,
        language: "rust".to_string(),
        framework: None,
        build_system: Some("cargo".to_string()),
        package_manager: Some("cargo".to_string()),
        root_path: PathBuf::from("/test/project"),
        config_files: vec![PathBuf::from("Cargo.toml")],
        dependencies: vec![],
    }
}

#[test]
fn test_project_config_generation() {
    let project_info = rust_project();

    let config = generate_project_config_for_type(&project_info, "standard");
    assert!(config.is_ok());

    let config = config.unwrap();
    assert_eq!(config["project"]["type"], "Rust");
    assert_eq!(config["project"]["language"], "rust");
    assert_eq!(config["project"]["build_system"], "cargo");
}

#[test]
fn project_configurations_in_three_sizes() {
    let info = rust_project();
    assert_eq!(
        generate_project_config(&info, "minimal").unwrap(),
        json(
            r#"{"version": "1.0",
                "project": {"name": "project", "type": "Rust", "language": "rust"},
                "analysis": {"basics": {"code_quality": true, "security_scan": true}}}"#
        )
    );
    assert_eq!(
        generate_project_config(&info, "standard").unwrap(),
        json(
            r#"{"version": "1.0",
                "project": {"name": "project", "type": "Rust", "language": "rust",
                            "framework": null, "build_system": "cargo"},
                "analysis": {
                    "basics": {"code_quality": true, "security_scan": true,
                               "dependency_check": true, "test_coverage": true},
                    "advanced": {"performance_analysis": true, "architecture_review": true}}}"#
        )
    );
    assert_eq!(
        generate_project_config(&info, "comprehensive").unwrap(),
        json(
            r#"{"version": "1.0",
                "project": {"name": "project", "type": "Rust", "language": "rust",
                            "framework": null, "build_system": "cargo", "package_manager": "cargo"},
                "analysis": {
                    "basics": {"code_quality": true, "security_scan": true,
                               "dependency_check": true, "test_coverage": true,
                               "documentation_check": true},
                    "advanced": {"performance_analysis": true, "architecture_review": true,
                                 "best_practices": true, "accessibility_check": false}}}"#
        )
    );
    assert_eq!(
        configuration_error(generate_project_config(&info, "Minimal")),
        "Unknown config type: Minimal"
    );
    let mut rootless = rust_project();
    rootless.root_path = PathBuf::from("/");
    assert_eq!(generate_project_config(&rootless, "minimal").unwrap()["project"]["name"], "unknown");
}

#[test]
fn answers_of_the_tools_as_documents() {
    assert_eq!(
        copilot_review_handler(&json(
            "{\"project_path\": \"/p\", \"pr_number\": 41, \"focus_areas\": [\"security\", 1, \"testing\"]}"
        ))
        .unwrap(),
        json(
            r##"{
                "review_comments": [
                    "Good overall code structure and organization",
                    "Consider adding more comprehensive error handling"
                ],
                "suggestions": [
                    "Add unit tests for the new functionality",
                    "Consider using async/await for better performance"
                ],
                "overall_score": 88,
                "focus_areas": ["security", "testing"],
                "summary": "Comprehensive review for PR #41"
            }"##
        )
    );
    assert_eq!(
        configuration_error(copilot_review_handler(&json("{\"project_path\": \"/p\", \"pr_number\": \"41\"}"))),
        "Missing pr_number"
    );
    assert_eq!(configuration_error(copilot_review_handler(&json("[]"))), "Missing project_path");
    assert_eq!(
        generate_documentation_handler(&json("{\"project_path\": \"/p\"}")).unwrap(),
        json(
            r##"{
                "documentation": "# Project Documentation\n\nThis is auto-generated documentation.",
                "generated_files": ["README.markdown"],
                "summary": "readme documentation generated in markdown format"
            }"##
        )
    );
    assert_eq!(
        generate_documentation_handler(&json(
            "{\"project_path\": \"/p\", \"doc_type\": \"api\", \"output_format\": \"html\"}"
        ))
        .unwrap(),
        json(
            r##"{
                "documentation": "# Project Documentation\n\nThis is auto-generated documentation.",
                "generated_files": ["README.html"],
                "summary": "api documentation generated in html format"
            }"##
        )
    );
    assert_eq!(
        configuration_error(generate_documentation_handler(&json("{\"doc_type\": \"api\"}"))),
        "Missing project_path"
    );
    assert_eq!(texts_value(&vec!["a".to_string(), "".to_string()]), json("[\"a\", \"\"]"));
    assert_eq!(texts_value(&vec![]), json("[]"));
}

#[test]
fn schemas_of_the_tools() {
    let registry = MCPToolRegistry::new();
    let schemas = registry.get_tool_schemas();
    assert_eq!(schemas.len(), 9);
    let names: Vec<&str> = schemas.iter().map(|s| s.0.as_str()).collect();
    assert_eq!(names, registry.list_tools());
    for (name, (input, output)) in &schemas {
        let tool = registry.get_tool(name).unwrap();
        assert_eq!(input, &tool.input_schema);
        assert_eq!(output, &tool.output_schema);
    }
    assert_eq!(schemas[1].0, "detect_project_type");
    assert_eq!(schemas[1].1 .0["required"], json("[\"project_path\"]"));
}
