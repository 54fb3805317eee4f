//! The tools offered to callers by name, and what they report.

use vstd::prelude::*;
use vstd::string::StringExecFns;
use serde_json::Value;
use crate::json::array_value;
use crate::json::as_number;
use crate::json::as_text;
use crate::json::as_truth;
use crate::json::entries_view;
use crate::json::items;
use crate::json::json_bool;
use crate::json::json_items;
use crate::json::json_member;
use crate::json::json_of_entries;
use crate::json::json_of_items;
use crate::json::json_of_number;
use crate::json::json_of_text;
use crate::json::json_parsed;
use crate::json::json_str;
use crate::json::json_u64;
use crate::json::member;
use crate::json::number_value;
use crate::json::object_value;
use crate::json::parse_json;
use crate::json::text_value;
use crate::model::AgentError;
use crate::named_map::NamedMap;
use crate::named_map::position_of;
use crate::text::decimal_text;
use crate::text::push_decimal;

verus! {

/// One finding of the code-quality tool.
#[derive(Debug, Clone)]
pub struct CodeIssue {
    pub severity: String,
    pub message: String,
    pub file: String,
    pub line: u32,
}

/// One finding of the security scan.
#[derive(Debug, Clone)]
pub struct Vulnerability {
    pub severity: String,
    pub package: String,
    pub version: String,
    pub description: String,
}

/// What the review tool reports.
#[derive(Debug, Clone)]
pub struct CopilotReviewResult {
    pub comments: Vec<String>,
    pub suggestions: Vec<String>,
    pub overall_score: u8,
    pub focus_areas: Vec<String>,
    pub summary: String,
}

/// What the documentation tool reports.
#[derive(Debug, Clone)]
pub struct DocumentationResult {
    pub content: String,
    pub generated_files: Vec<String>,
    pub summary: String,
}

/// The schema of what the tool takes.
pub const EXECUTE_WORKFLOW_INPUT: &'static str =
    "{\"type\":\"object\",\"properties\":{\"project_path\":{\"type\":\"string\",\
     \"description\":\"Path to the project directory\"},\"workflow_type\":{\"type\":\"string\",\
     \"enum\":[\"pr_review\",\"full_analysis\",\"security_scan\",\"performance_analysis\"],\
     \"description\":\"Type of workflow to execute\"},\"pr_number\":{\"type\":\"integer\",\
     \"description\":\"PR number for pr_review workflow\"}},\"required\":[\"project_path\",\
     \"workflow_type\"]}";

/// The schema of what the tool gives.
pub const EXECUTE_WORKFLOW_OUTPUT: &'static str =
    "{\"type\":\"object\",\"properties\":{\"success\":{\"type\":\"boolean\"},\
     \"report\":{\"type\":\"string\"},\"suggestions\":{\"type\":\"array\",\"items\":{\"type\":\"string\"}},\
     \"execution_time\":{\"type\":\"number\"}}}";

/// The schema of what the tool takes.
pub const DETECT_PROJECT_TYPE_INPUT: &'static str =
    "{\"type\":\"object\",\"properties\":{\"project_path\":{\"type\":\"string\",\
     \"description\":\"Path to the project directory\"}},\"required\":[\"project_path\"]}";

/// The schema of what the tool gives.
pub const DETECT_PROJECT_TYPE_OUTPUT: &'static str =
    "{\"type\":\"object\",\"properties\":{\"project_type\":{\"type\":\"string\"},\
     \"language\":{\"type\":\"string\"},\"framework\":{\"type\":\"string\"},\
     \"build_system\":{\"type\":\"string\"},\"package_manager\":{\"type\":\"string\"},\
     \"dependencies\":{\"type\":\"array\",\"items\":{\"type\":\"object\",\"properties\":{\"name\":{\"type\":\"string\"},\
     \"version\":{\"type\":\"string\"},\"source\":{\"type\":\"string\"}}}}}}";

/// The schema of what the tool takes.
pub const GENERATE_WORKFLOW_CONFIG_INPUT: &'static str =
    "{\"type\":\"object\",\"properties\":{\"project_path\":{\"type\":\"string\",\
     \"description\":\"Path to the project directory\"},\"config_type\":{\"type\":\"string\",\
     \"enum\":[\"minimal\",\"standard\",\"comprehensive\"],\"default\":\"standard\",\
     \"description\":\"Type of configuration to generate\"}},\"required\":[\"project_path\"]}";

/// The schema of what the tool gives.
pub const GENERATE_WORKFLOW_CONFIG_OUTPUT: &'static str =
    "{\"type\":\"object\",\"properties\":{\"config\":{\"type\":\"object\"},\"config_path\":{\"type\":\"string\"},\
     \"description\":{\"type\":\"string\"}}}";

/// The schema of what the tool takes.
pub const ANALYZE_CODE_QUALITY_INPUT: &'static str =
    "{\"type\":\"object\",\"properties\":{\"project_path\":{\"type\":\"string\",\
     \"description\":\"Path to the project directory\"},\"include_tests\":{\"type\":\"boolean\",\
     \"default\":false,\"description\":\"Include test files in analysis\"},\"strict_mode\":{\"type\":\"boolean\",\
     \"default\":false,\"description\":\"Use strict analysis mode\"}},\"required\":[\"project_path\"]}";

/// The schema of what the tool gives.
pub const ANALYZE_CODE_QUALITY_OUTPUT: &'static str =
    "{\"type\":\"object\",\"properties\":{\"quality_score\":{\"type\":\"number\"},\
     \"issues\":{\"type\":\"array\",\"items\":{\"type\":\"object\",\"properties\":{\"severity\":{\"type\":\"string\"},\
     \"message\":{\"type\":\"string\"},\"file\":{\"type\":\"string\"},\"line\":{\"type\":\"number\"}}}},\
     \"suggestions\":{\"type\":\"array\",\"items\":{\"type\":\"string\"}},\"execution_time\":{\"type\":\"number\"}}}";

/// The schema of what the tool takes.
pub const SECURITY_SCAN_INPUT: &'static str =
    "{\"type\":\"object\",\"properties\":{\"project_path\":{\"type\":\"string\",\
     \"description\":\"Path to the project directory\"},\"scan_dependencies\":{\"type\":\"boolean\",\
     \"default\":true,\"description\":\"Scan dependencies for vulnerabilities\"},\
     \"scan_code\":{\"type\":\"boolean\",\"default\":true,\"description\":\"Scan code for security issues\"}},\
     \"required\":[\"project_path\"]}";

/// The schema of what the tool gives.
pub const SECURITY_SCAN_OUTPUT: &'static str =
    "{\"type\":\"object\",\"properties\":{\"vulnerabilities\":{\"type\":\"array\",\
     \"items\":{\"type\":\"object\",\"properties\":{\"severity\":{\"type\":\"string\"},\
     \"package\":{\"type\":\"string\"},\"version\":{\"type\":\"string\"},\"description\":{\"type\":\"string\"}}}},\
     \"security_score\":{\"type\":\"number\"},\"recommendations\":{\"type\":\"array\",\
     \"items\":{\"type\":\"string\"}},\"execution_time\":{\"type\":\"number\"}}}";

/// The schema of what the tool takes.
pub const COPILOT_REVIEW_INPUT: &'static str =
    "{\"type\":\"object\",\"properties\":{\"project_path\":{\"type\":\"string\",\
     \"description\":\"Path to the project directory\"},\"pr_number\":{\"type\":\"integer\",\
     \"description\":\"Pull request number\"},\"focus_areas\":{\"type\":\"array\",\
     \"items\":{\"type\":\"string\",\"enum\":[\"code_quality\",\"security\",\
     \"performance\",\"maintainability\",\"testing\",\"documentation\"]},\"description\":\"Areas to focus the review on\"},\
     \"depth\":{\"type\":\"string\",\"enum\":[\"basic\",\"detailed\",\"comprehensive\"],\
     \"default\":\"detailed\",\"description\":\"Review depth\"}},\"required\":[\"project_path\",\
     \"pr_number\"]}";

/// The schema of what the tool gives.
pub const COPILOT_REVIEW_OUTPUT: &'static str =
    "{\"type\":\"object\",\"properties\":{\"review_comments\":{\"type\":\"array\",\
     \"items\":{\"type\":\"string\"}},\"suggestions\":{\"type\":\"array\",\"items\":{\"type\":\"string\"}},\
     \"overall_score\":{\"type\":\"number\"},\"focus_areas\":{\"type\":\"array\",\
     \"items\":{\"type\":\"string\"}},\"execution_time\":{\"type\":\"number\"}}}";

/// The schema of what the tool takes.
pub const PERFORMANCE_ANALYSIS_INPUT: &'static str =
    "{\"type\":\"object\",\"properties\":{\"project_path\":{\"type\":\"string\",\
     \"description\":\"Path to the project directory\"},\"analysis_type\":{\"type\":\"string\",\
     \"enum\":[\"build_time\",\"runtime\",\"memory\",\"cpu\"],\"default\":\"runtime\",\
     \"description\":\"Type of performance analysis\"}},\"required\":[\"project_path\"]}";

/// The schema of what the tool gives.
pub const PERFORMANCE_ANALYSIS_OUTPUT: &'static str =
    "{\"type\":\"object\",\"properties\":{\"performance_metrics\":{\"type\":\"object\"},\
     \"bottlenecks\":{\"type\":\"array\",\"items\":{\"type\":\"string\"}},\"optimization_suggestions\":{\"type\":\"array\",\
     \"items\":{\"type\":\"string\"}},\"execution_time\":{\"type\":\"number\"}}}";

/// The schema of what the tool takes.
pub const TEST_COVERAGE_ANALYSIS_INPUT: &'static str =
    "{\"type\":\"object\",\"properties\":{\"project_path\":{\"type\":\"string\",\
     \"description\":\"Path to the project directory\"},\"coverage_type\":{\"type\":\"string\",\
     \"enum\":[\"line\",\"branch\",\"function\",\"statement\"],\"default\":\"line\",\
     \"description\":\"Type of coverage analysis\"}},\"required\":[\"project_path\"]}";

/// The schema of what the tool gives.
pub const TEST_COVERAGE_ANALYSIS_OUTPUT: &'static str =
    "{\"type\":\"object\",\"properties\":{\"coverage_percentage\":{\"type\":\"number\"},\
     \"uncovered_files\":{\"type\":\"array\",\"items\":{\"type\":\"string\"}},\
     \"coverage_report\":{\"type\":\"string\"},\"suggestions\":{\"type\":\"array\",\
     \"items\":{\"type\":\"string\"}},\"execution_time\":{\"type\":\"number\"}}}";

/// The schema of what the tool takes.
pub const GENERATE_DOCUMENTATION_INPUT: &'static str =
    "{\"type\":\"object\",\"properties\":{\"project_path\":{\"type\":\"string\",\
     \"description\":\"Path to the project directory\"},\"doc_type\":{\"type\":\"string\",\
     \"enum\":[\"api\",\"user_guide\",\"technical\",\"readme\"],\"default\":\"readme\",\
     \"description\":\"Type of documentation to generate\"},\"output_format\":{\"type\":\"string\",\
     \"enum\":[\"markdown\",\"html\",\"pdf\"],\"default\":\"markdown\",\"description\":\"Output format for documentation\"}},\
     \"required\":[\"project_path\"]}";

/// The schema of what the tool gives.
pub const GENERATE_DOCUMENTATION_OUTPUT: &'static str =
    "{\"type\":\"object\",\"properties\":{\"documentation\":{\"type\":\"string\"},\
     \"generated_files\":{\"type\":\"array\",\"items\":{\"type\":\"string\"}},\
     \"execution_time\":{\"type\":\"number\"}}}";


/// A tool that callers can run by name, with the schemas of what it takes
/// and what it gives.
#[derive(Debug, Clone)]
pub struct MCPTool {
    pub name: String,
    pub description: String,
    pub input_schema: Value,
    pub output_schema: Value,
}

/// The document that a schema text stands for; the text itself, as a
/// string, where it is not JSON.
pub open spec fn schema_of(text: Seq<char>) -> Value {
    match json_parsed(text) {
        Ok(document) => document,
        Err(_) => json_of_text(text),
    }
}

/// Reads a schema from its text.
fn read_schema(text: &str) -> (schema: Value)
    ensures
        schema == schema_of(text@),
{
    match parse_json(text) {
        Ok(document) => document,
        Err(_) => text_value(text.to_owned()),
    }
}

/// A tool with the schemas that the two texts stand for.
fn make_tool(name: &str, description: &str, input_schema: &str, output_schema: &str) -> (tool: MCPTool)
    ensures
        tool.name@ == name@,
        tool.description@ == description@,
        tool.input_schema == schema_of(input_schema@),
        tool.output_schema == schema_of(output_schema@),
{
    MCPTool {
        name: name.to_owned(),
        description: description.to_owned(),
        input_schema: read_schema(input_schema),
        output_schema: read_schema(output_schema),
    }
}

/// The names of the tools that every registry starts with, in the order
/// of their registration.
pub open spec fn default_tool_names() -> Seq<Seq<char>> {
    seq![
        "execute_claude_copilot_workflow"@,
        "detect_project_type"@,
        "generate_workflow_config"@,
        "analyze_code_quality"@,
        "security_scan"@,
        "copilot_review"@,
        "performance_analysis"@,
        "test_coverage_analysis"@,
        "generate_documentation"@,
    ]
}

/// The first field that a schema requires and an input lacks: the fields
/// are the texts in the `required` array of the schema.
pub open spec fn first_missing_field(required: Seq<Value>, input: Value) -> Option<Seq<char>>
    decreases required.len(),
{
    if required.len() == 0 {
        None
    } else {
        match json_str(required[0]) {
            Some(field) => if json_member(input, field) is None {
                Some(field)
            } else {
                first_missing_field(required.drop_first(), input)
            },
            None => first_missing_field(required.drop_first(), input),
        }
    }
}

/// The field that an input lacks by a schema, if it lacks one.
pub open spec fn missing_field(schema: Value, input: Value) -> Option<Seq<char>> {
    match json_member(schema, "required"@) {
        Some(required) => match json_items(required) {
            Some(list) => first_missing_field(list, input),
            None => None,
        },
        None => None,
    }
}

/// Checks an input against a schema: every field that the schema requires
/// must be a member of the input.
pub fn validate_input_schema(schema: &Value, input: &Value) -> (r: Result<(), AgentError>)
    ensures
        match r {
            Ok(()) => missing_field(*schema, *input) is None,
            Err(e) => missing_field(*schema, *input) is Some && (
            e matches AgentError::Configuration(m) && m@ == "Missing required field: "@
                + missing_field(*schema, *input)->0),
        },
{
    let required = match member(schema, "required") {
        Some(required) => required,
        None => {
            return Ok(());
        },
    };
    let list = match items(required) {
        Some(list) => list,
        None => {
            return Ok(());
        },
    };
    let mut i: usize = 0;
    assert(list@.skip(0) =~= list@);
    while i < list.len()
        invariant
            i <= list@.len(),
            missing_field(*schema, *input) == first_missing_field(list@, *input),
            first_missing_field(list@, *input) == first_missing_field(list@.skip(i as int), *input),
        decreases list@.len() - i,
    {
        proof {
            assert(list@.skip(i as int)[0] == list@[i as int]);
            assert(list@.skip(i as int).drop_first() =~= list@.skip(i + 1));
        }
        match as_text(&list[i]) {
            Some(field) => {
                if member(input, field).is_none() {
                    let mut message = "Missing required field: ".to_owned();
                    message.append(field);
                    return Err(AgentError::Configuration(message));
                }
            },
            None => {},
        }
        i = i + 1;
    }
    Ok(())
}

/// The tools that callers can run, each under its name.
pub struct MCPToolRegistry {
    tools: NamedMap<MCPTool>,
}

impl MCPToolRegistry {
    /// The tools, each under its name, in the order of their registration.
    pub closed spec fn tools(&self) -> NamedMap<MCPTool> {
        self.tools
    }

    /// A registry with the tools that come with the library.
    pub fn new() -> (registry: Self)
        ensures
            registry.tools().names() == default_tool_names(),
            registry.tools().wf(),
            forall|i: int|
                0 <= i < registry.tools().names().len() ==> (#[trigger] registry.tools().values()[i]).name@
                    == registry.tools().names()[i],
    {
        let mut registry = MCPToolRegistry { tools: NamedMap::new() };
        registry.register_default_tools();
        registry
    }

    /// Registers the tools that come with the library.
    fn register_default_tools(&mut self)
        requires
            old(self).tools().names().len() == 0,
        ensures
            final(self).tools().names() == default_tool_names(),
            final(self).tools().wf(),
            forall|i: int|
                0 <= i < final(self).tools().names().len() ==> (#[trigger] final(self).tools().values()[i]).name@
                    == final(self).tools().names()[i],
    {
        assert(self.tools().names() =~= Seq::empty());
        assert(self.tools().values().len() == 0) by {
            self.tools().lemma_same_length();
        }
        proof {
            reveal_strlit("execute_claude_copilot_workflow");
            reveal_strlit("detect_project_type");
            reveal_strlit("generate_workflow_config");
            reveal_strlit("analyze_code_quality");
            reveal_strlit("security_scan");
            reveal_strlit("copilot_review");
            reveal_strlit("performance_analysis");
            reveal_strlit("test_coverage_analysis");
            reveal_strlit("generate_documentation");
        }
        assert(!default_tool_names().take(0).contains("execute_claude_copilot_workflow"@)) by {
            let before = default_tool_names().take(0);
            if before.contains("execute_claude_copilot_workflow"@) {
                let j = choose|j: int| 0 <= j < before.len() && before[j] == "execute_claude_copilot_workflow"@;
            }
        }
        self.register_tool(make_tool(
            "execute_claude_copilot_workflow",
            "Execute code analysis and Copilot workflow for PR review and analysis",
            EXECUTE_WORKFLOW_INPUT,
            EXECUTE_WORKFLOW_OUTPUT,
        ));
        assert(self.tools().names() =~= default_tool_names().take(1));
        assert(self.tools().values().len() == 1) by {
            self.tools().lemma_same_length();
        }

        assert(!default_tool_names().take(1).contains("detect_project_type"@)) by {
            let before = default_tool_names().take(1);
            if before.contains("detect_project_type"@) {
                let j = choose|j: int| 0 <= j < before.len() && before[j] == "detect_project_type"@;
                if j == 0 {
                    assert(before[0].len() != "detect_project_type"@.len());
                }
            }
        }
        self.register_tool(make_tool(
            "detect_project_type",
            "Detect project type and configuration",
            DETECT_PROJECT_TYPE_INPUT,
            DETECT_PROJECT_TYPE_OUTPUT,
        ));
        assert(self.tools().names() =~= default_tool_names().take(2));
        assert(self.tools().values().len() == 2) by {
            self.tools().lemma_same_length();
        }

        assert(!default_tool_names().take(2).contains("generate_workflow_config"@)) by {
            let before = default_tool_names().take(2);
            if before.contains("generate_workflow_config"@) {
                let j = choose|j: int| 0 <= j < before.len() && before[j] == "generate_workflow_config"@;
                if j == 0 {
                    assert(before[0].len() != "generate_workflow_config"@.len());
                }
                if j == 1 {
                    assert(before[1].len() != "generate_workflow_config"@.len());
                }
            }
        }
        self.register_tool(make_tool(
            "generate_workflow_config",
            "Generate workflow configuration for a project",
            GENERATE_WORKFLOW_CONFIG_INPUT,
            GENERATE_WORKFLOW_CONFIG_OUTPUT,
        ));
        assert(self.tools().names() =~= default_tool_names().take(3));
        assert(self.tools().values().len() == 3) by {
            self.tools().lemma_same_length();
        }

        assert(!default_tool_names().take(3).contains("analyze_code_quality"@)) by {
            let before = default_tool_names().take(3);
            if before.contains("analyze_code_quality"@) {
                let j = choose|j: int| 0 <= j < before.len() && before[j] == "analyze_code_quality"@;
                if j == 0 {
                    assert(before[0].len() != "analyze_code_quality"@.len());
                }
                if j == 1 {
                    assert(before[1].len() != "analyze_code_quality"@.len());
                }
                if j == 2 {
                    assert(before[2].len() != "analyze_code_quality"@.len());
                }
            }
        }
        self.register_tool(make_tool(
            "analyze_code_quality",
            "Analyze code quality using project-specific tools",
            ANALYZE_CODE_QUALITY_INPUT,
            ANALYZE_CODE_QUALITY_OUTPUT,
        ));
        assert(self.tools().names() =~= default_tool_names().take(4));
        assert(self.tools().values().len() == 4) by {
            self.tools().lemma_same_length();
        }

        assert(!default_tool_names().take(4).contains("security_scan"@)) by {
            let before = default_tool_names().take(4);
            if before.contains("security_scan"@) {
                let j = choose|j: int| 0 <= j < before.len() && before[j] == "security_scan"@;
                if j == 0 {
                    assert(before[0].len() != "security_scan"@.len());
                }
                if j == 1 {
                    assert(before[1].len() != "security_scan"@.len());
                }
                if j == 2 {
                    assert(before[2].len() != "security_scan"@.len());
                }
                if j == 3 {
                    assert(before[3].len() != "security_scan"@.len());
                }
            }
        }
        self.register_tool(make_tool(
            "security_scan",
            "Perform security scan on the project",
            SECURITY_SCAN_INPUT,
            SECURITY_SCAN_OUTPUT,
        ));
        assert(self.tools().names() =~= default_tool_names().take(5));
        assert(self.tools().values().len() == 5) by {
            self.tools().lemma_same_length();
        }

        assert(!default_tool_names().take(5).contains("copilot_review"@)) by {
            let before = default_tool_names().take(5);
            if before.contains("copilot_review"@) {
                let j = choose|j: int| 0 <= j < before.len() && before[j] == "copilot_review"@;
                if j == 0 {
                    assert(before[0].len() != "copilot_review"@.len());
                }
                if j == 1 {
                    assert(before[1].len() != "copilot_review"@.len());
                }
                if j == 2 {
                    assert(before[2].len() != "copilot_review"@.len());
                }
                if j == 3 {
                    assert(before[3].len() != "copilot_review"@.len());
                }
                if j == 4 {
                    assert(before[4].len() != "copilot_review"@.len());
                }
            }
        }
        self.register_tool(make_tool(
            "copilot_review",
            "Generate Copilot review for code changes",
            COPILOT_REVIEW_INPUT,
            COPILOT_REVIEW_OUTPUT,
        ));
        assert(self.tools().names() =~= default_tool_names().take(6));
        assert(self.tools().values().len() == 6) by {
            self.tools().lemma_same_length();
        }

        assert(!default_tool_names().take(6).contains("performance_analysis"@)) by {
            let before = default_tool_names().take(6);
            if before.contains("performance_analysis"@) {
                let j = choose|j: int| 0 <= j < before.len() && before[j] == "performance_analysis"@;
                if j == 0 {
                    assert(before[0].len() != "performance_analysis"@.len());
                }
                if j == 1 {
                    assert(before[1].len() != "performance_analysis"@.len());
                }
                if j == 2 {
                    assert(before[2].len() != "performance_analysis"@.len());
                }
                if j == 3 {
                    assert(before[3][0] != "performance_analysis"@[0]);
                }
                if j == 4 {
                    assert(before[4].len() != "performance_analysis"@.len());
                }
                if j == 5 {
                    assert(before[5].len() != "performance_analysis"@.len());
                }
            }
        }
        self.register_tool(make_tool(
            "performance_analysis",
            "Analyze performance characteristics of the project",
            PERFORMANCE_ANALYSIS_INPUT,
            PERFORMANCE_ANALYSIS_OUTPUT,
        ));
        assert(self.tools().names() =~= default_tool_names().take(7));
        assert(self.tools().values().len() == 7) by {
            self.tools().lemma_same_length();
        }

        assert(!default_tool_names().take(7).contains("test_coverage_analysis"@)) by {
            let before = default_tool_names().take(7);
            if before.contains("test_coverage_analysis"@) {
                let j = choose|j: int| 0 <= j < before.len() && before[j] == "test_coverage_analysis"@;
                if j == 0 {
                    assert(before[0].len() != "test_coverage_analysis"@.len());
                }
                if j == 1 {
                    assert(before[1].len() != "test_coverage_analysis"@.len());
                }
                if j == 2 {
                    assert(before[2].len() != "test_coverage_analysis"@.len());
                }
                if j == 3 {
                    assert(before[3].len() != "test_coverage_analysis"@.len());
                }
                if j == 4 {
                    assert(before[4].len() != "test_coverage_analysis"@.len());
                }
                if j == 5 {
                    assert(before[5].len() != "test_coverage_analysis"@.len());
                }
                if j == 6 {
                    assert(before[6].len() != "test_coverage_analysis"@.len());
                }
            }
        }
        self.register_tool(make_tool(
            "test_coverage_analysis",
            "Analyze test coverage of the project",
            TEST_COVERAGE_ANALYSIS_INPUT,
            TEST_COVERAGE_ANALYSIS_OUTPUT,
        ));
        assert(self.tools().names() =~= default_tool_names().take(8));
        assert(self.tools().values().len() == 8) by {
            self.tools().lemma_same_length();
        }

        assert(!default_tool_names().take(8).contains("generate_documentation"@)) by {
            let before = default_tool_names().take(8);
            if before.contains("generate_documentation"@) {
                let j = choose|j: int| 0 <= j < before.len() && before[j] == "generate_documentation"@;
                if j == 0 {
                    assert(before[0].len() != "generate_documentation"@.len());
                }
                if j == 1 {
                    assert(before[1].len() != "generate_documentation"@.len());
                }
                if j == 2 {
                    assert(before[2].len() != "generate_documentation"@.len());
                }
                if j == 3 {
                    assert(before[3].len() != "generate_documentation"@.len());
                }
                if j == 4 {
                    assert(before[4].len() != "generate_documentation"@.len());
                }
                if j == 5 {
                    assert(before[5].len() != "generate_documentation"@.len());
                }
                if j == 6 {
                    assert(before[6].len() != "generate_documentation"@.len());
                }
                if j == 7 {
                    assert(before[7][0] != "generate_documentation"@[0]);
                }
            }
        }
        self.register_tool(make_tool(
            "generate_documentation",
            "Generate documentation for the project",
            GENERATE_DOCUMENTATION_INPUT,
            GENERATE_DOCUMENTATION_OUTPUT,
        ));
        assert(self.tools().names() =~= default_tool_names().take(9));
        assert(self.tools().values().len() == 9) by {
            self.tools().lemma_same_length();
        }
    }

    /// Registers a tool under its name. A tool that was registered under
    /// the same name before is replaced.
    pub fn register_tool(&mut self, tool: MCPTool)
        ensures
            old(self).tools().has(tool.name@) ==> {
                &&& final(self).tools().names() == old(self).tools().names()
                &&& final(self).tools().values() == old(self).tools().values().update(
                    position_of(old(self).tools().names(), tool.name@),
                    tool,
                )
            },
            !old(self).tools().has(tool.name@) ==> {
                &&& final(self).tools().names() == old(self).tools().names().push(tool.name@)
                &&& final(self).tools().values() == old(self).tools().values().push(tool)
            },
            old(self).tools().wf() ==> final(self).tools().wf(),
    {
        let name = tool.name.clone();
        self.tools.insert(name, tool);
    }

    /// The tool registered under a name.
    pub fn get_tool(&self, name: &str) -> (r: Option<&MCPTool>)
        ensures
            r == (if self.tools().has(name@) {
                Some(&self.tools().value_of(name@))
            } else {
                None
            }),
    {
        self.tools.get(name)
    }

    /// The names of the tools, in the order of their registration.
    pub fn list_tools(&self) -> (names: Vec<&str>)
        ensures
            names@.len() == self.tools().names().len(),
            forall|i: int| 0 <= i < names@.len() ==> names@[i]@ == self.tools().names()[i],
    {
        let mut names: Vec<&str> = Vec::new();
        let mut i: usize = 0;
        while i < self.tools.len()
            invariant
                i <= self.tools().names().len(),
                names@.len() == i,
                forall|j: int| 0 <= j < i ==> names@[j]@ == self.tools().names()[j],
            decreases self.tools().names().len() - i,
        {
            names.push(self.tools.name_at(i));
            i = i + 1;
        }
        names
    }

    /// The schemas of the tools: for each tool its name, the schema of its
    /// input and the schema of its output, in the order of registration.
    pub fn get_tool_schemas(&self) -> (schemas: Vec<(String, (Value, Value))>)
        ensures
            schemas@.len() == self.tools().names().len(),
            forall|i: int|
                0 <= i < schemas@.len() ==> (#[trigger] schemas@[i]).0@ == self.tools().names()[i]
                    && schemas@[i].1 == (
                    self.tools().values()[i].input_schema,
                    self.tools().values()[i].output_schema,
                ),
    {
        let mut schemas: Vec<(String, (Value, Value))> = Vec::new();
        let mut i: usize = 0;
        proof {
            self.tools.lemma_same_length();
        }
        while i < self.tools.len()
            invariant
                i <= self.tools().names().len(),
                self.tools().names().len() == self.tools().values().len(),
                schemas@.len() == i,
                forall|j: int|
                    0 <= j < i ==> (#[trigger] schemas@[j]).0@ == self.tools().names()[j]
                        && schemas@[j].1 == (
                        self.tools().values()[j].input_schema,
                        self.tools().values()[j].output_schema,
                    ),
            decreases self.tools().names().len() - i,
        {
            let tool = self.tools.value_at(i);
            schemas.push(
                (
                    self.tools.name_at(i).to_owned(),
                    (tool.input_schema.clone(), tool.output_schema.clone()),
                ),
            );
            i = i + 1;
        }
        schemas
    }

    /// Checks a call of a tool before the tool runs: the tool must be
    /// registered, and the input must have the fields that its schema
    /// requires.
    pub fn check_tool_call(&self, tool_name: &str, input: &Value) -> (r: Result<(), AgentError>)
        ensures
            match r {
                Ok(()) => self.tools().has(tool_name@) && missing_field(
                    self.tools().value_of(tool_name@).input_schema,
                    *input,
                ) is None,
                Err(e) => if !self.tools().has(tool_name@) {
                    e matches AgentError::Configuration(m) && m@ == "Tool '"@ + tool_name@
                        + "' not found"@
                } else {
                    missing_field(self.tools().value_of(tool_name@).input_schema, *input) is Some
                        && (e matches AgentError::Configuration(m) && m@
                        == "Missing required field: "@ + missing_field(
                        self.tools().value_of(tool_name@).input_schema,
                        *input,
                    )->0)
                },
            },
    {
        match self.tools.get(tool_name) {
            Some(tool) => validate_input_schema(&tool.input_schema, input),
            None => {
                let mut message = "Tool '".to_owned();
                message.append(tool_name);
                message.append("' not found");
                Err(AgentError::Configuration(message))
            },
        }
    }
}

/// The text under a key of an input, where the input has a string there.
pub open spec fn text_at(input: Value, key: Seq<char>) -> Option<Seq<char>> {
    match json_member(input, key) {
        Some(v) => json_str(v),
        None => None,
    }
}

/// The truth value under a key of an input, where it has one there.
pub open spec fn truth_at(input: Value, key: Seq<char>) -> Option<bool> {
    match json_member(input, key) {
        Some(v) => json_bool(v),
        None => None,
    }
}

/// The number under a key of an input, where it has one there.
pub open spec fn number_at(input: Value, key: Seq<char>) -> Option<u64> {
    match json_member(input, key) {
        Some(v) => json_u64(v),
        None => None,
    }
}

/// The texts among the items of an array, in order.
pub open spec fn texts_among(list: Seq<Value>) -> Seq<Seq<char>>
    decreases list.len(),
{
    if list.len() == 0 {
        Seq::empty()
    } else {
        texts_among(list.drop_last()) + match json_str(list.last()) {
            Some(text) => seq![text],
            None => Seq::empty(),
        }
    }
}

/// The texts in the array under a key of an input; none where the input
/// has no array there.
pub open spec fn texts_at(input: Value, key: Seq<char>) -> Seq<Seq<char>> {
    match json_member(input, key) {
        Some(v) => match json_items(v) {
            Some(list) => texts_among(list),
            None => Seq::empty(),
        },
        None => Seq::empty(),
    }
}

/// The texts of a vector of texts.
pub open spec fn texts_view(list: Seq<String>) -> Seq<Seq<char>> {
    Seq::new(list.len(), |i: int| list[i]@)
}

/// The text under a key, which the input must have.
pub fn required_text(input: &Value, key: &str) -> (r: Result<String, AgentError>)
    ensures
        match r {
            Ok(text) => text_at(*input, key@) == Some(text@),
            Err(e) => text_at(*input, key@) is None && (e matches AgentError::Configuration(m)
                && m@ == "Missing "@ + key@),
        },
{
    let found = match member(input, key) {
        Some(v) => as_text(v),
        None => None,
    };
    match found {
        Some(text) => Ok(text.to_owned()),
        None => {
            let mut message = "Missing ".to_owned();
            message.append(key);
            Err(AgentError::Configuration(message))
        },
    }
}

/// The text under a key, or `default` where the input has none there.
pub fn text_or(input: &Value, key: &str, default: &str) -> (text: String)
    ensures
        text@ == match text_at(*input, key@) {
            Some(t) => t,
            None => default@,
        },
{
    let found = match member(input, key) {
        Some(v) => as_text(v),
        None => None,
    };
    match found {
        Some(text) => text.to_owned(),
        None => default.to_owned(),
    }
}

/// The truth value under a key, or `default` where the input has none
/// there.
pub fn truth_or(input: &Value, key: &str, default: bool) -> (b: bool)
    ensures
        b == match truth_at(*input, key@) {
            Some(t) => t,
            None => default,
        },
{
    let found = match member(input, key) {
        Some(v) => as_truth(v),
        None => None,
    };
    match found {
        Some(b) => b,
        None => default,
    }
}

/// The number under a key, where the input has one there.
pub fn number_of(input: &Value, key: &str) -> (n: Option<u64>)
    ensures
        n == number_at(*input, key@),
{
    match member(input, key) {
        Some(v) => as_number(v),
        None => None,
    }
}

/// The texts in the array under a key.
pub fn texts_of(input: &Value, key: &str) -> (texts: Vec<String>)
    ensures
        texts_view(texts@) == texts_at(*input, key@),
{
    let mut texts: Vec<String> = Vec::new();
    assert(texts_view(texts@) =~= Seq::empty());
    let array = match member(input, key) {
        Some(v) => v,
        None => {
            return texts;
        },
    };
    let list = match items(array) {
        Some(list) => list,
        None => {
            return texts;
        },
    };
    let mut i: usize = 0;
    assert(list@.take(0) =~= Seq::empty());
    while i < list.len()
        invariant
            i <= list@.len(),
            texts_view(texts@) == texts_among(list@.take(i as int)),
        decreases list@.len() - i,
    {
        let ghost before = texts@;
        proof {
            assert(list@.take(i + 1).drop_last() =~= list@.take(i as int));
            assert(list@.take(i + 1).last() == list@[i as int]);
        }
        match as_text(&list[i]) {
            Some(text) => {
                texts.push(text.to_owned());
                assert(texts_view(texts@) =~= texts_view(before).push(text@));
            },
            None => {},
        }
        assert(texts_view(texts@) =~= texts_among(list@.take(i + 1)));
        i = i + 1;
    }
    assert(list@.take(list@.len() as int) =~= list@);
    texts
}

/// What the workflow tool is asked.
#[derive(Debug, Clone)]
pub struct ExecuteWorkflowRequest {
    pub project_path: String,
    pub workflow_type: String,
    pub pr_number: Option<u64>,
}

/// Reads what the workflow tool is asked: the project path and the
/// workflow type are required.
pub fn execute_workflow_request(input: &Value) -> (r: Result<ExecuteWorkflowRequest, AgentError>)
    ensures
        match r {
            Ok(request) => text_at(*input, "project_path"@) == Some(request.project_path@)
                && text_at(*input, "workflow_type"@) == Some(request.workflow_type@)
                && request.pr_number == number_at(*input, "pr_number"@),
            Err(e) => if text_at(*input, "project_path"@) is None {
                e matches AgentError::Configuration(m) && m@ == "Missing "@ + "project_path"@
            } else {
                text_at(*input, "workflow_type"@) is None && (
                e matches AgentError::Configuration(m) && m@ == "Missing "@ + "workflow_type"@)
            },
        },
{
    let project_path = match required_text(input, "project_path") {
        Ok(text) => text,
        Err(e) => {
            return Err(e);
        },
    };
    let workflow_type = match required_text(input, "workflow_type") {
        Ok(text) => text,
        Err(e) => {
            return Err(e);
        },
    };
    Ok(ExecuteWorkflowRequest { project_path, workflow_type, pr_number: number_of(input, "pr_number") })
}

/// What the review tool is asked.
#[derive(Debug, Clone)]
pub struct CopilotReviewRequest {
    pub project_path: String,
    pub pr_number: u64,
    pub focus_areas: Vec<String>,
    pub depth: String,
}

/// Reads what the review tool is asked: the project path and the number
/// of the pull request are required; the depth is `detailed` unless the
/// input says otherwise.
pub fn copilot_review_request(input: &Value) -> (r: Result<CopilotReviewRequest, AgentError>)
    ensures
        match r {
            Ok(request) => text_at(*input, "project_path"@) == Some(request.project_path@)
                && number_at(*input, "pr_number"@) == Some(request.pr_number) && texts_view(
                request.focus_areas@,
            ) == texts_at(*input, "focus_areas"@) && request.depth@ == (match text_at(
                *input,
                "depth"@,
            ) {
                Some(t) => t,
                None => "detailed"@,
            }),
            Err(e) => if text_at(*input, "project_path"@) is None {
                e matches AgentError::Configuration(m) && m@ == "Missing "@ + "project_path"@
            } else {
                number_at(*input, "pr_number"@) is None && (e matches AgentError::Configuration(m)
                    && m@ == "Missing pr_number"@)
            },
        },
{
    let project_path = match required_text(input, "project_path") {
        Ok(text) => text,
        Err(e) => {
            return Err(e);
        },
    };
    let pr_number = match number_of(input, "pr_number") {
        Some(n) => n,
        None => {
            return Err(AgentError::Configuration("Missing pr_number".to_owned()));
        },
    };
    Ok(
        CopilotReviewRequest {
            project_path,
            pr_number,
            focus_areas: texts_of(input, "focus_areas"),
            depth: text_or(input, "depth", "detailed"),
        },
    )
}

/// What the review tool gives for a pull request: two comments, two
/// suggestions, the score 88, and the areas that were asked for.
pub fn generate_copilot_review(pr_number: u64, focus_areas: Vec<String>) -> (review: CopilotReviewResult)
    ensures
        review.comments@.len() == 2,
        review.comments@[0]@ == "Good overall code structure and organization"@,
        review.comments@[1]@ == "Consider adding more comprehensive error handling"@,
        review.suggestions@.len() == 2,
        review.suggestions@[0]@ == "Add unit tests for the new functionality"@,
        review.suggestions@[1]@ == "Consider using async/await for better performance"@,
        review.overall_score == 88,
        review.focus_areas == focus_areas,
        review.summary@ == "Comprehensive review for PR #"@ + decimal_text(pr_number as nat),
{
    let mut comments: Vec<String> = Vec::new();
    comments.push("Good overall code structure and organization".to_owned());
    comments.push("Consider adding more comprehensive error handling".to_owned());
    let mut suggestions: Vec<String> = Vec::new();
    suggestions.push("Add unit tests for the new functionality".to_owned());
    suggestions.push("Consider using async/await for better performance".to_owned());
    let mut summary = "Comprehensive review for PR #".to_owned();
    push_decimal(&mut summary, pr_number);
    CopilotReviewResult { comments, suggestions, overall_score: 88, focus_areas, summary }
}

/// What the documentation tool gives: a stub of the documentation, the
/// name of the file for the format, and a summary.
pub fn generate_project_documentation(doc_type: &str, output_format: &str) -> (doc: DocumentationResult)
    ensures
        doc.content@ == "# Project Documentation\n\nThis is auto-generated documentation."@,
        doc.generated_files@.len() == 1,
        doc.generated_files@[0]@ == "README."@ + output_format@,
        doc.summary@ == doc_type@ + " documentation generated in "@ + output_format@ + " format"@,
{
    let mut file = "README.".to_owned();
    file.append(output_format);
    let mut generated_files: Vec<String> = Vec::new();
    generated_files.push(file);
    let mut summary = doc_type.to_owned();
    summary.append(" documentation generated in ");
    summary.append(output_format);
    summary.append(" format");
    DocumentationResult {
        content: "# Project Documentation\n\nThis is auto-generated documentation.".to_owned(),
        generated_files,
        summary,
    }
}

/// The array of some texts, in order.
pub open spec fn texts_document(texts: Seq<Seq<char>>) -> Value {
    json_of_items(Seq::new(texts.len(), |i: int| json_of_text(texts[i])))
}

/// The array of the texts of a list.
pub fn texts_value(list: &Vec<String>) -> (v: Value)
    ensures
        v == texts_document(texts_view(list@)),
{
    let mut items: Vec<Value> = Vec::new();
    let mut i: usize = 0;
    while i < list.len()
        invariant
            i <= list@.len(),
            items@ == Seq::new(i as nat, |k: int| json_of_text(list@[k]@)),
        decreases list@.len() - i,
    {
        items.push(text_value(list[i].clone()));
        assert(items@ =~= Seq::new((i + 1) as nat, |k: int| json_of_text(list@[k]@)));
        i = i + 1;
    }
    assert(items@ =~= Seq::new(
        texts_view(list@).len(),
        |k: int| json_of_text(texts_view(list@)[k]),
    ));
    array_value(items)
}

/// The answer of the review tool for a pull request and the areas that
/// were asked for.
pub open spec fn review_answer(pr_number: u64, focus_areas: Seq<Seq<char>>) -> Value {
    json_of_entries(
        seq![
            (
                "review_comments"@,
                texts_document(
                    seq![
                        "Good overall code structure and organization"@,
                        "Consider adding more comprehensive error handling"@,
                    ],
                ),
            ),
            (
                "suggestions"@,
                texts_document(
                    seq![
                        "Add unit tests for the new functionality"@,
                        "Consider using async/await for better performance"@,
                    ],
                ),
            ),
            ("overall_score"@, json_of_number(88)),
            ("focus_areas"@, texts_document(focus_areas)),
            (
                "summary"@,
                json_of_text("Comprehensive review for PR #"@ + decimal_text(pr_number as nat)),
            ),
        ],
    )
}

/// The answer of the documentation tool for a kind of documentation and
/// a format.
pub open spec fn documentation_answer(doc_type: Seq<char>, output_format: Seq<char>) -> Value {
    json_of_entries(
        seq![
            (
                "documentation"@,
                json_of_text("# Project Documentation\n\nThis is auto-generated documentation."@),
            ),
            ("generated_files"@, texts_document(seq!["README."@ + output_format])),
            (
                "summary"@,
                json_of_text(doc_type + " documentation generated in "@ + output_format + " format"@),
            ),
        ],
    )
}

/// The text under a key of an input, or `default` where it has none
/// there.
pub open spec fn text_at_or(input: Value, key: Seq<char>, default: Seq<char>) -> Seq<char> {
    match text_at(input, key) {
        Some(t) => t,
        None => default,
    }
}

/// Answers a call of the review tool: reads what is asked and gives the
/// review as a document. The project path and the number of the pull
/// request are required.
pub fn copilot_review_handler(input: &Value) -> (r: Result<Value, AgentError>)
    ensures
        match r {
            Ok(v) => text_at(*input, "project_path"@) is Some && number_at(*input, "pr_number"@)
                is Some && v == review_answer(
                number_at(*input, "pr_number"@)->0,
                texts_at(*input, "focus_areas"@),
            ),
            Err(e) => if text_at(*input, "project_path"@) is None {
                e matches AgentError::Configuration(m) && m@ == "Missing "@ + "project_path"@
            } else {
                number_at(*input, "pr_number"@) is None && (e matches AgentError::Configuration(m)
                    && m@ == "Missing pr_number"@)
            },
        },
{
    let request = match copilot_review_request(input) {
        Ok(request) => request,
        Err(e) => {
            return Err(e);
        },
    };
    let review = generate_copilot_review(request.pr_number, request.focus_areas);
    let mut members: Vec<(String, Value)> = Vec::new();
    members.push(("review_comments".to_owned(), texts_value(&review.comments)));
    members.push(("suggestions".to_owned(), texts_value(&review.suggestions)));
    members.push(("overall_score".to_owned(), number_value(review.overall_score as u64)));
    members.push(("focus_areas".to_owned(), texts_value(&review.focus_areas)));
    members.push(("summary".to_owned(), text_value(review.summary.clone())));
    proof {
        assert(texts_view(review.comments@) =~= seq![
            "Good overall code structure and organization"@,
            "Consider adding more comprehensive error handling"@,
        ]);
        assert(texts_view(review.suggestions@) =~= seq![
            "Add unit tests for the new functionality"@,
            "Consider using async/await for better performance"@,
        ]);
        assert(entries_view(members@) =~= seq![
            ("review_comments"@, texts_document(texts_view(review.comments@))),
            ("suggestions"@, texts_document(texts_view(review.suggestions@))),
            ("overall_score"@, json_of_number(88)),
            ("focus_areas"@, texts_document(texts_view(review.focus_areas@))),
            ("summary"@, json_of_text(review.summary@)),
        ]);
    }
    Ok(object_value(members))
}

/// Answers a call of the documentation tool: the project path is
/// required; the kind of documentation is `readme` and the format
/// `markdown` unless the input says otherwise.
pub fn generate_documentation_handler(input: &Value) -> (r: Result<Value, AgentError>)
    ensures
        match r {
            Ok(v) => text_at(*input, "project_path"@) is Some && v == documentation_answer(
                text_at_or(*input, "doc_type"@, "readme"@),
                text_at_or(*input, "output_format"@, "markdown"@),
            ),
            Err(e) => text_at(*input, "project_path"@) is None && (
            e matches AgentError::Configuration(m) && m@ == "Missing "@ + "project_path"@),
        },
{
    match required_text(input, "project_path") {
        Ok(_) => {},
        Err(e) => {
            return Err(e);
        },
    }
    let doc_type = text_or(input, "doc_type", "readme");
    let output_format = text_or(input, "output_format", "markdown");
    let doc = generate_project_documentation(doc_type.as_str(), output_format.as_str());
    let mut members: Vec<(String, Value)> = Vec::new();
    members.push(("documentation".to_owned(), text_value(doc.content.clone())));
    members.push(("generated_files".to_owned(), texts_value(&doc.generated_files)));
    members.push(("summary".to_owned(), text_value(doc.summary.clone())));
    proof {
        assert(texts_view(doc.generated_files@) =~= seq!["README."@ + output_format@]);
        assert(entries_view(members@) =~= seq![
            ("documentation"@, json_of_text(doc.content@)),
            ("generated_files"@, texts_document(texts_view(doc.generated_files@))),
            ("summary"@, json_of_text(doc.summary@)),
        ]);
    }
    Ok(object_value(members))
}

} // verus!
