//! The workflows that come with the library.

use vstd::prelude::*;
use vstd::string::StringExecFns;
use std::path::PathBuf;
use std::time::Duration;
use serde_json::Value;
use crate::json::bool_value;
use crate::json::entries_view;
use crate::json::json_of_bool;
use crate::json::json_of_entries;
use crate::json::json_of_number;
use crate::json::json_of_text;
use crate::json::number_value;
use crate::json::object_value;
use crate::json::text_value;
use crate::model::AgentError;
use crate::model::Environment;
use crate::model::WorkflowContext;
use crate::model::WorkflowDefinition;
use crate::model::WorkflowInput;
use crate::model::WorkflowOutput;
use crate::model::WorkflowStep;
use crate::model::WorkflowTrigger;
use crate::named_map::NamedMap;
use crate::outside::path_from_text;
use crate::outside::path_of_text;
use crate::outside::seconds;
use crate::retry::BackoffStrategy;
use crate::retry::RetryPolicy;
use crate::text::decimal_text;
use crate::text::push_decimal;
use crate::text::same_text;
use crate::validator::dependency_names;
use crate::validator::lemma_ordered_workflow_is_valid;
use crate::validator::names_unique;
use crate::validator::rankable;
use crate::validator::step_names;
use crate::validator::structure_valid;

verus! {

/// Whether a step has this name, this agent, these dependencies and this
/// timeout in seconds, with the default retry policy.
pub open spec fn step_is(
    step: WorkflowStep,
    name: Seq<char>,
    agent: Seq<char>,
    dependencies: Seq<Seq<char>>,
    timeout_secs: u64,
) -> bool {
    &&& step.name@ == name
    &&& step.agent@ == agent
    &&& step.dependencies@.len() == dependencies.len()
    &&& forall|k: int|
        0 <= k < dependencies.len() ==> (#[trigger] step.dependencies@[k])@ == dependencies[k]
    &&& step.timeout == seconds(timeout_secs)
    &&& step.retry_policy.max_attempts == 3
    &&& step.retry_policy.backoff_strategy == BackoffStrategy::Exponential
    &&& step.retry_policy.max_delay == seconds(60)
}

/// Whether a workflow has this name, this description and this one
/// trigger, the version `1.0`, no variables, and a report as its one
/// output.
pub open spec fn workflow_is(
    w: &WorkflowDefinition,
    name: Seq<char>,
    description: Seq<char>,
    trigger: WorkflowTrigger,
) -> bool {
    &&& w.name@ == name
    &&& w.version@ == "1.0"@
    &&& w.description@ == description
    &&& w.triggers@ == seq![trigger]
    &&& w.variables.names().len() == 0
    &&& w.outputs@ == seq![WorkflowOutput::Report]
}

/// A step with the default retry policy.
fn make_step(
    name: &str,
    agent: &str,
    input: WorkflowInput,
    output: WorkflowOutput,
    dependencies: Vec<String>,
    timeout_secs: u64,
) -> (step: WorkflowStep)
    ensures
        step_is(
            step,
            name@,
            agent@,
            Seq::new(dependencies@.len(), |k: int| dependencies@[k]@),
            timeout_secs,
        ),
        step.input == input,
        step.output == output,
        step.dependencies == dependencies,
{
    WorkflowStep {
        name: name.to_owned(),
        agent: agent.to_owned(),
        input,
        output,
        dependencies,
        retry_policy: RetryPolicy::default(),
        timeout: Duration::from_secs(timeout_secs),
    }
}

/// A workflow of these steps, in the version `1.0`, with one trigger, no
/// variables and a report as its one output.
fn make_workflow(name: String, description: &str, trigger: WorkflowTrigger, steps: Vec<WorkflowStep>) -> (w:
    WorkflowDefinition)
    ensures
        workflow_is(&w, name@, description@, trigger),
        w.steps == steps,
{
    let mut triggers: Vec<WorkflowTrigger> = Vec::new();
    triggers.push(trigger);
    let mut outputs: Vec<WorkflowOutput> = Vec::new();
    outputs.push(WorkflowOutput::Report);
    WorkflowDefinition {
        name,
        version: "1.0".to_owned(),
        description: description.to_owned(),
        triggers,
        steps,
        variables: NamedMap::new(),
        outputs,
    }
}

/// What `create_pr_review_workflow` builds.
pub open spec fn describes_pr_review_workflow(w: &WorkflowDefinition, pr_number: u32) -> bool {
    &&& workflow_is(
        w,
        "PR Review Workflow - PR #"@ + decimal_text(pr_number as nat),
        "Comprehensive PR review workflow with code analysis and Copilot integration"@,
        WorkflowTrigger::PullRequest,
    )
    &&& w.steps@.len() == 6
    &&& step_is(w.steps@[0], "detect_project"@, "project_detector"@, Seq::<Seq<char>>::empty(), 30)
    &&& w.steps@[0].input == WorkflowInput::ProjectPath(path_of_text("."@))
    &&& w.steps@[0].output == WorkflowOutput::ProjectInfo
    &&& step_is(
        w.steps@[1],
        "analyze_code_quality"@,
        "analysis_engine"@,
        seq!["detect_project"@],
        300,
    )
    &&& w.steps@[1].input == WorkflowInput::ProjectInfo
    &&& w.steps@[1].output == WorkflowOutput::AnalysisResults
    &&& step_is(w.steps@[2], "security_scan"@, "security_scanner"@, seq!["detect_project"@], 180)
    &&& w.steps@[2].input == WorkflowInput::ProjectInfo
    &&& w.steps@[2].output == WorkflowOutput::AnalysisResults
    &&& step_is(
        w.steps@[3],
        "generate_copilot_prompt"@,
        "prompt_generator"@,
        seq!["analyze_code_quality"@, "security_scan"@],
        60,
    )
    &&& w.steps@[3].input == WorkflowInput::Custom(json_of_entries(seq![
        ("type"@, json_of_text("pr_review"@)),
        ("pr_number"@, json_of_number(pr_number as u64)),
    ]))
    &&& w.steps@[3].output == WorkflowOutput::CopilotPrompt
    &&& step_is(
        w.steps@[4],
        "copilot_review"@,
        "copilot_integration"@,
        seq!["generate_copilot_prompt"@],
        600,
    )
    &&& w.steps@[4].input == WorkflowInput::CopilotPrompt
    &&& w.steps@[4].output == WorkflowOutput::CopilotResponse
    &&& step_is(w.steps@[5], "generate_report"@, "report_generator"@, seq!["copilot_review"@], 120)
    &&& w.steps@[5].input == WorkflowInput::Custom(json_of_entries(seq![
        ("type"@, json_of_text("pr_review"@)),
        ("include_analysis"@, json_of_bool(true)),
        ("include_copilot"@, json_of_bool(true)),
    ]))
    &&& w.steps@[5].output == WorkflowOutput::Report
}

/// The workflow that reviews a pull request: the project is detected, its code is analysed
/// and scanned, a prompt is made from the findings, the review is asked for, and a report is
/// written.
/// The shape of the workflow is valid.
pub fn create_pr_review_workflow(pr_number: u32) -> (r: Result<WorkflowDefinition, AgentError>)
    ensures
        r matches Ok(w) && describes_pr_review_workflow(&w, pr_number) && structure_valid(&w) && rankable(&w),
{
    let mut steps: Vec<WorkflowStep> = Vec::new();
    let mut dependencies: Vec<String> = Vec::new();
    steps.push(make_step(
        "detect_project",
        "project_detector",
        WorkflowInput::ProjectPath(path_from_text(".")),
        WorkflowOutput::ProjectInfo,
        dependencies,
        30,
    ));
    let mut dependencies: Vec<String> = Vec::new();
    dependencies.push("detect_project".to_owned());
    steps.push(make_step(
        "analyze_code_quality",
        "analysis_engine",
        WorkflowInput::ProjectInfo,
        WorkflowOutput::AnalysisResults,
        dependencies,
        300,
    ));
    let mut dependencies: Vec<String> = Vec::new();
    dependencies.push("detect_project".to_owned());
    steps.push(make_step(
        "security_scan",
        "security_scanner",
        WorkflowInput::ProjectInfo,
        WorkflowOutput::AnalysisResults,
        dependencies,
        180,
    ));
    let mut members: Vec<(String, Value)> = Vec::new();
    members.push(("type".to_owned(), text_value("pr_review".to_owned())));
    members.push(("pr_number".to_owned(), number_value(pr_number as u64)));
    assert(entries_view(members@) =~= seq![
        ("type"@, json_of_text("pr_review"@)),
        ("pr_number"@, json_of_number(pr_number as u64)),
    ]);
    let mut dependencies: Vec<String> = Vec::new();
    dependencies.push("analyze_code_quality".to_owned());
    dependencies.push("security_scan".to_owned());
    steps.push(make_step(
        "generate_copilot_prompt",
        "prompt_generator",
        WorkflowInput::Custom(object_value(members)),
        WorkflowOutput::CopilotPrompt,
        dependencies,
        60,
    ));
    let mut dependencies: Vec<String> = Vec::new();
    dependencies.push("generate_copilot_prompt".to_owned());
    steps.push(make_step(
        "copilot_review",
        "copilot_integration",
        WorkflowInput::CopilotPrompt,
        WorkflowOutput::CopilotResponse,
        dependencies,
        600,
    ));
    let mut members: Vec<(String, Value)> = Vec::new();
    members.push(("type".to_owned(), text_value("pr_review".to_owned())));
    members.push(("include_analysis".to_owned(), bool_value(true)));
    members.push(("include_copilot".to_owned(), bool_value(true)));
    assert(entries_view(members@) =~= seq![
        ("type"@, json_of_text("pr_review"@)),
        ("include_analysis"@, json_of_bool(true)),
        ("include_copilot"@, json_of_bool(true)),
    ]);
    let mut dependencies: Vec<String> = Vec::new();
    dependencies.push("copilot_review".to_owned());
    steps.push(make_step(
        "generate_report",
        "report_generator",
        WorkflowInput::Custom(object_value(members)),
        WorkflowOutput::Report,
        dependencies,
        120,
    ));
    let mut name = "PR Review Workflow - PR #".to_owned();
    push_decimal(&mut name, pr_number as u64);
    let w = make_workflow(
        name,
        "Comprehensive PR review workflow with code analysis and Copilot integration",
        WorkflowTrigger::PullRequest,
        steps,
    );
    proof {
        reveal_strlit("detect_project");
        reveal_strlit("analyze_code_quality");
        reveal_strlit("security_scan");
        reveal_strlit("generate_copilot_prompt");
        reveal_strlit("copilot_review");
        reveal_strlit("generate_report");
        let names = step_names(&w);
        assert(names[0] == "detect_project"@);
        assert(names[1] == "analyze_code_quality"@);
        assert(names[2] == "security_scan"@);
        assert(names[3] == "generate_copilot_prompt"@);
        assert(names[4] == "copilot_review"@);
        assert(names[5] == "generate_report"@);
        assert(names[0] != names[1]);
        assert(names[0] != names[2]);
        assert(names[0] != names[3]);
        assert(names[0][0] != names[4][0]);
        assert(names[0] != names[4]);
        assert(names[0] != names[5]);
        assert(names[1] != names[2]);
        assert(names[1] != names[3]);
        assert(names[1] != names[4]);
        assert(names[1] != names[5]);
        assert(names[2] != names[3]);
        assert(names[2] != names[4]);
        assert(names[2] != names[5]);
        assert(names[3] != names[4]);
        assert(names[3] != names[5]);
        assert(names[4] != names[5]);
        assert(names_unique(&w));
        assert forall|i: int, k: int|
            0 <= i < w.steps@.len() && 0 <= k < w.steps@[i].dependencies@.len() implies exists|j: int|
            0 <= j < i && step_names(&w)[j] == #[trigger] dependency_names(&w, i)[k] by {
            if i == 1 && k == 0 {
                assert(dependency_names(&w, 1)[0] == "detect_project"@);
                assert(step_names(&w)[0] == "detect_project"@);
            }
            if i == 2 && k == 0 {
                assert(dependency_names(&w, 2)[0] == "detect_project"@);
                assert(step_names(&w)[0] == "detect_project"@);
            }
            if i == 3 && k == 0 {
                assert(dependency_names(&w, 3)[0] == "analyze_code_quality"@);
                assert(step_names(&w)[1] == "analyze_code_quality"@);
            }
            if i == 3 && k == 1 {
                assert(dependency_names(&w, 3)[1] == "security_scan"@);
                assert(step_names(&w)[2] == "security_scan"@);
            }
            if i == 4 && k == 0 {
                assert(dependency_names(&w, 4)[0] == "generate_copilot_prompt"@);
                assert(step_names(&w)[3] == "generate_copilot_prompt"@);
            }
            if i == 5 && k == 0 {
                assert(dependency_names(&w, 5)[0] == "copilot_review"@);
                assert(step_names(&w)[4] == "copilot_review"@);
            }
        }
        lemma_ordered_workflow_is_valid(&w);
    }
    Ok(w)
}

/// What `create_full_analysis_workflow` builds.
pub open spec fn describes_full_analysis_workflow(w: &WorkflowDefinition) -> bool {
    &&& workflow_is(
        w,
        "Full Analysis Workflow"@,
        "Comprehensive code analysis including quality, security, and performance"@,
        WorkflowTrigger::Manual,
    )
    &&& w.steps@.len() == 6
    &&& step_is(w.steps@[0], "detect_project"@, "project_detector"@, Seq::<Seq<char>>::empty(), 30)
    &&& w.steps@[0].input == WorkflowInput::ProjectPath(path_of_text("."@))
    &&& w.steps@[0].output == WorkflowOutput::ProjectInfo
    &&& step_is(
        w.steps@[1],
        "analyze_code_quality"@,
        "analysis_engine"@,
        seq!["detect_project"@],
        300,
    )
    &&& w.steps@[1].input == WorkflowInput::ProjectInfo
    &&& w.steps@[1].output == WorkflowOutput::AnalysisResults
    &&& step_is(w.steps@[2], "security_scan"@, "security_scanner"@, seq!["detect_project"@], 180)
    &&& w.steps@[2].input == WorkflowInput::ProjectInfo
    &&& w.steps@[2].output == WorkflowOutput::AnalysisResults
    &&& step_is(
        w.steps@[3],
        "performance_analysis"@,
        "performance_analyzer"@,
        seq!["detect_project"@],
        240,
    )
    &&& w.steps@[3].input == WorkflowInput::ProjectInfo
    &&& w.steps@[3].output == WorkflowOutput::AnalysisResults
    &&& step_is(
        w.steps@[4],
        "test_coverage_analysis"@,
        "test_coverage_analyzer"@,
        seq!["detect_project"@],
        180,
    )
    &&& w.steps@[4].input == WorkflowInput::ProjectInfo
    &&& w.steps@[4].output == WorkflowOutput::AnalysisResults
    &&& step_is(
        w.steps@[5],
        "generate_report"@,
        "report_generator"@,
        seq![
            "analyze_code_quality"@,
            "security_scan"@,
            "performance_analysis"@,
            "test_coverage_analysis"@,
        ],
        120,
    )
    &&& w.steps@[5].input == WorkflowInput::Custom(json_of_entries(seq![
        ("type"@, json_of_text("full_analysis"@)),
        ("include_quality"@, json_of_bool(true)),
        ("include_security"@, json_of_bool(true)),
        ("include_performance"@, json_of_bool(true)),
        ("include_coverage"@, json_of_bool(true)),
    ]))
    &&& w.steps@[5].output == WorkflowOutput::Report
}

/// The workflow that analyses a project in full: quality, security, performance and test
/// coverage, each after the project is detected, and a report of all four.
/// The shape of the workflow is valid.
pub fn create_full_analysis_workflow() -> (r: Result<WorkflowDefinition, AgentError>)
    ensures
        r matches Ok(w) && describes_full_analysis_workflow(&w) && structure_valid(&w) && rankable(&w),
{
    let mut steps: Vec<WorkflowStep> = Vec::new();
    let mut dependencies: Vec<String> = Vec::new();
    steps.push(make_step(
        "detect_project",
        "project_detector",
        WorkflowInput::ProjectPath(path_from_text(".")),
        WorkflowOutput::ProjectInfo,
        dependencies,
        30,
    ));
    let mut dependencies: Vec<String> = Vec::new();
    dependencies.push("detect_project".to_owned());
    steps.push(make_step(
        "analyze_code_quality",
        "analysis_engine",
        WorkflowInput::ProjectInfo,
        WorkflowOutput::AnalysisResults,
        dependencies,
        300,
    ));
    let mut dependencies: Vec<String> = Vec::new();
    dependencies.push("detect_project".to_owned());
    steps.push(make_step(
        "security_scan",
        "security_scanner",
        WorkflowInput::ProjectInfo,
        WorkflowOutput::AnalysisResults,
        dependencies,
        180,
    ));
    let mut dependencies: Vec<String> = Vec::new();
    dependencies.push("detect_project".to_owned());
    steps.push(make_step(
        "performance_analysis",
        "performance_analyzer",
        WorkflowInput::ProjectInfo,
        WorkflowOutput::AnalysisResults,
        dependencies,
        240,
    ));
    let mut dependencies: Vec<String> = Vec::new();
    dependencies.push("detect_project".to_owned());
    steps.push(make_step(
        "test_coverage_analysis",
        "test_coverage_analyzer",
        WorkflowInput::ProjectInfo,
        WorkflowOutput::AnalysisResults,
        dependencies,
        180,
    ));
    let mut members: Vec<(String, Value)> = Vec::new();
    members.push(("type".to_owned(), text_value("full_analysis".to_owned())));
    members.push(("include_quality".to_owned(), bool_value(true)));
    members.push(("include_security".to_owned(), bool_value(true)));
    members.push(("include_performance".to_owned(), bool_value(true)));
    members.push(("include_coverage".to_owned(), bool_value(true)));
    assert(entries_view(members@) =~= seq![
        ("type"@, json_of_text("full_analysis"@)),
        ("include_quality"@, json_of_bool(true)),
        ("include_security"@, json_of_bool(true)),
        ("include_performance"@, json_of_bool(true)),
        ("include_coverage"@, json_of_bool(true)),
    ]);
    let mut dependencies: Vec<String> = Vec::new();
    dependencies.push("analyze_code_quality".to_owned());
    dependencies.push("security_scan".to_owned());
    dependencies.push("performance_analysis".to_owned());
    dependencies.push("test_coverage_analysis".to_owned());
    steps.push(make_step(
        "generate_report",
        "report_generator",
        WorkflowInput::Custom(object_value(members)),
        WorkflowOutput::Report,
        dependencies,
        120,
    ));
    let name = "Full Analysis Workflow".to_owned();
    let w = make_workflow(
        name,
        "Comprehensive code analysis including quality, security, and performance",
        WorkflowTrigger::Manual,
        steps,
    );
    proof {
        reveal_strlit("detect_project");
        reveal_strlit("analyze_code_quality");
        reveal_strlit("security_scan");
        reveal_strlit("performance_analysis");
        reveal_strlit("test_coverage_analysis");
        reveal_strlit("generate_report");
        let names = step_names(&w);
        assert(names[0] == "detect_project"@);
        assert(names[1] == "analyze_code_quality"@);
        assert(names[2] == "security_scan"@);
        assert(names[3] == "performance_analysis"@);
        assert(names[4] == "test_coverage_analysis"@);
        assert(names[5] == "generate_report"@);
        assert(names[0] != names[1]);
        assert(names[0] != names[2]);
        assert(names[0] != names[3]);
        assert(names[0] != names[4]);
        assert(names[0] != names[5]);
        assert(names[1] != names[2]);
        assert(names[1][0] != names[3][0]);
        assert(names[1] != names[3]);
        assert(names[1] != names[4]);
        assert(names[1] != names[5]);
        assert(names[2] != names[3]);
        assert(names[2] != names[4]);
        assert(names[2] != names[5]);
        assert(names[3] != names[4]);
        assert(names[3] != names[5]);
        assert(names[4] != names[5]);
        assert(names_unique(&w));
        assert forall|i: int, k: int|
            0 <= i < w.steps@.len() && 0 <= k < w.steps@[i].dependencies@.len() implies exists|j: int|
            0 <= j < i && step_names(&w)[j] == #[trigger] dependency_names(&w, i)[k] by {
            if i == 1 && k == 0 {
                assert(dependency_names(&w, 1)[0] == "detect_project"@);
                assert(step_names(&w)[0] == "detect_project"@);
            }
            if i == 2 && k == 0 {
                assert(dependency_names(&w, 2)[0] == "detect_project"@);
                assert(step_names(&w)[0] == "detect_project"@);
            }
            if i == 3 && k == 0 {
                assert(dependency_names(&w, 3)[0] == "detect_project"@);
                assert(step_names(&w)[0] == "detect_project"@);
            }
            if i == 4 && k == 0 {
                assert(dependency_names(&w, 4)[0] == "detect_project"@);
                assert(step_names(&w)[0] == "detect_project"@);
            }
            if i == 5 && k == 0 {
                assert(dependency_names(&w, 5)[0] == "analyze_code_quality"@);
                assert(step_names(&w)[1] == "analyze_code_quality"@);
            }
            if i == 5 && k == 1 {
                assert(dependency_names(&w, 5)[1] == "security_scan"@);
                assert(step_names(&w)[2] == "security_scan"@);
            }
            if i == 5 && k == 2 {
                assert(dependency_names(&w, 5)[2] == "performance_analysis"@);
                assert(step_names(&w)[3] == "performance_analysis"@);
            }
            if i == 5 && k == 3 {
                assert(dependency_names(&w, 5)[3] == "test_coverage_analysis"@);
                assert(step_names(&w)[4] == "test_coverage_analysis"@);
            }
        }
        lemma_ordered_workflow_is_valid(&w);
    }
    Ok(w)
}

/// What `create_security_scan_workflow` builds.
pub open spec fn describes_security_scan_workflow(w: &WorkflowDefinition) -> bool {
    &&& workflow_is(
        w,
        "Security Scan Workflow"@,
        "Focused security vulnerability scanning and analysis"@,
        WorkflowTrigger::Manual,
    )
    &&& w.steps@.len() == 4
    &&& step_is(w.steps@[0], "detect_project"@, "project_detector"@, Seq::<Seq<char>>::empty(), 30)
    &&& w.steps@[0].input == WorkflowInput::ProjectPath(path_of_text("."@))
    &&& w.steps@[0].output == WorkflowOutput::ProjectInfo
    &&& step_is(
        w.steps@[1],
        "dependency_vulnerability_scan"@,
        "dependency_scanner"@,
        seq!["detect_project"@],
        120,
    )
    &&& w.steps@[1].input == WorkflowInput::ProjectInfo
    &&& w.steps@[1].output == WorkflowOutput::AnalysisResults
    &&& step_is(w.steps@[2], "code_security_scan"@, "code_scanner"@, seq!["detect_project"@], 180)
    &&& w.steps@[2].input == WorkflowInput::ProjectInfo
    &&& w.steps@[2].output == WorkflowOutput::AnalysisResults
    &&& step_is(
        w.steps@[3],
        "generate_report"@,
        "report_generator"@,
        seq!["dependency_vulnerability_scan"@, "code_security_scan"@],
        120,
    )
    &&& w.steps@[3].input == WorkflowInput::Custom(json_of_entries(seq![
        ("type"@, json_of_text("security_scan"@)),
        ("include_dependencies"@, json_of_bool(true)),
        ("include_code_analysis"@, json_of_bool(true)),
    ]))
    &&& w.steps@[3].output == WorkflowOutput::Report
}

/// The workflow that scans a project for vulnerabilities, in its dependencies and in its
/// code, and reports them.
/// The shape of the workflow is valid.
pub fn create_security_scan_workflow() -> (r: Result<WorkflowDefinition, AgentError>)
    ensures
        r matches Ok(w) && describes_security_scan_workflow(&w) && structure_valid(&w) && rankable(&w),
{
    let mut steps: Vec<WorkflowStep> = Vec::new();
    let mut dependencies: Vec<String> = Vec::new();
    steps.push(make_step(
        "detect_project",
        "project_detector",
        WorkflowInput::ProjectPath(path_from_text(".")),
        WorkflowOutput::ProjectInfo,
        dependencies,
        30,
    ));
    let mut dependencies: Vec<String> = Vec::new();
    dependencies.push("detect_project".to_owned());
    steps.push(make_step(
        "dependency_vulnerability_scan",
        "dependency_scanner",
        WorkflowInput::ProjectInfo,
        WorkflowOutput::AnalysisResults,
        dependencies,
        120,
    ));
    let mut dependencies: Vec<String> = Vec::new();
    dependencies.push("detect_project".to_owned());
    steps.push(make_step(
        "code_security_scan",
        "code_scanner",
        WorkflowInput::ProjectInfo,
        WorkflowOutput::AnalysisResults,
        dependencies,
        180,
    ));
    let mut members: Vec<(String, Value)> = Vec::new();
    members.push(("type".to_owned(), text_value("security_scan".to_owned())));
    members.push(("include_dependencies".to_owned(), bool_value(true)));
    members.push(("include_code_analysis".to_owned(), bool_value(true)));
    assert(entries_view(members@) =~= seq![
        ("type"@, json_of_text("security_scan"@)),
        ("include_dependencies"@, json_of_bool(true)),
        ("include_code_analysis"@, json_of_bool(true)),
    ]);
    let mut dependencies: Vec<String> = Vec::new();
    dependencies.push("dependency_vulnerability_scan".to_owned());
    dependencies.push("code_security_scan".to_owned());
    steps.push(make_step(
        "generate_report",
        "report_generator",
        WorkflowInput::Custom(object_value(members)),
        WorkflowOutput::Report,
        dependencies,
        120,
    ));
    let name = "Security Scan Workflow".to_owned();
    let w = make_workflow(
        name,
        "Focused security vulnerability scanning and analysis",
        WorkflowTrigger::Manual,
        steps,
    );
    proof {
        reveal_strlit("detect_project");
        reveal_strlit("dependency_vulnerability_scan");
        reveal_strlit("code_security_scan");
        reveal_strlit("generate_report");
        let names = step_names(&w);
        assert(names[0] == "detect_project"@);
        assert(names[1] == "dependency_vulnerability_scan"@);
        assert(names[2] == "code_security_scan"@);
        assert(names[3] == "generate_report"@);
        assert(names[0] != names[1]);
        assert(names[0] != names[2]);
        assert(names[0] != names[3]);
        assert(names[1] != names[2]);
        assert(names[1] != names[3]);
        assert(names[2] != names[3]);
        assert(names_unique(&w));
        assert forall|i: int, k: int|
            0 <= i < w.steps@.len() && 0 <= k < w.steps@[i].dependencies@.len() implies exists|j: int|
            0 <= j < i && step_names(&w)[j] == #[trigger] dependency_names(&w, i)[k] by {
            if i == 1 && k == 0 {
                assert(dependency_names(&w, 1)[0] == "detect_project"@);
                assert(step_names(&w)[0] == "detect_project"@);
            }
            if i == 2 && k == 0 {
                assert(dependency_names(&w, 2)[0] == "detect_project"@);
                assert(step_names(&w)[0] == "detect_project"@);
            }
            if i == 3 && k == 0 {
                assert(dependency_names(&w, 3)[0] == "dependency_vulnerability_scan"@);
                assert(step_names(&w)[1] == "dependency_vulnerability_scan"@);
            }
            if i == 3 && k == 1 {
                assert(dependency_names(&w, 3)[1] == "code_security_scan"@);
                assert(step_names(&w)[2] == "code_security_scan"@);
            }
        }
        lemma_ordered_workflow_is_valid(&w);
    }
    Ok(w)
}

/// What `create_performance_analysis_workflow` builds.
pub open spec fn describes_performance_analysis_workflow(w: &WorkflowDefinition) -> bool {
    &&& workflow_is(
        w,
        "Performance Analysis Workflow"@,
        "Comprehensive performance analysis and optimization recommendations"@,
        WorkflowTrigger::Manual,
    )
    &&& w.steps@.len() == 5
    &&& step_is(w.steps@[0], "detect_project"@, "project_detector"@, Seq::<Seq<char>>::empty(), 30)
    &&& w.steps@[0].input == WorkflowInput::ProjectPath(path_of_text("."@))
    &&& w.steps@[0].output == WorkflowOutput::ProjectInfo
    &&& step_is(
        w.steps@[1],
        "build_performance_analysis"@,
        "build_analyzer"@,
        seq!["detect_project"@],
        180,
    )
    &&& w.steps@[1].input == WorkflowInput::ProjectInfo
    &&& w.steps@[1].output == WorkflowOutput::AnalysisResults
    &&& step_is(
        w.steps@[2],
        "runtime_performance_analysis"@,
        "runtime_analyzer"@,
        seq!["detect_project"@],
        240,
    )
    &&& w.steps@[2].input == WorkflowInput::ProjectInfo
    &&& w.steps@[2].output == WorkflowOutput::AnalysisResults
    &&& step_is(
        w.steps@[3],
        "memory_usage_analysis"@,
        "memory_analyzer"@,
        seq!["detect_project"@],
        120,
    )
    &&& w.steps@[3].input == WorkflowInput::ProjectInfo
    &&& w.steps@[3].output == WorkflowOutput::AnalysisResults
    &&& step_is(
        w.steps@[4],
        "generate_report"@,
        "report_generator"@,
        seq![
            "build_performance_analysis"@,
            "runtime_performance_analysis"@,
            "memory_usage_analysis"@,
        ],
        120,
    )
    &&& w.steps@[4].input == WorkflowInput::Custom(json_of_entries(seq![
        ("type"@, json_of_text("performance_analysis"@)),
        ("include_build"@, json_of_bool(true)),
        ("include_runtime"@, json_of_bool(true)),
        ("include_memory"@, json_of_bool(true)),
    ]))
    &&& w.steps@[4].output == WorkflowOutput::Report
}

/// The workflow that analyses the performance of a project: its build, its run time and its
/// memory, and a report of the three.
/// The shape of the workflow is valid.
pub fn create_performance_analysis_workflow() -> (r: Result<WorkflowDefinition, AgentError>)
    ensures
        r matches Ok(w) && describes_performance_analysis_workflow(&w) && structure_valid(&w) && rankable(&w),
{
    let mut steps: Vec<WorkflowStep> = Vec::new();
    let mut dependencies: Vec<String> = Vec::new();
    steps.push(make_step(
        "detect_project",
        "project_detector",
        WorkflowInput::ProjectPath(path_from_text(".")),
        WorkflowOutput::ProjectInfo,
        dependencies,
        30,
    ));
    let mut dependencies: Vec<String> = Vec::new();
    dependencies.push("detect_project".to_owned());
    steps.push(make_step(
        "build_performance_analysis",
        "build_analyzer",
        WorkflowInput::ProjectInfo,
        WorkflowOutput::AnalysisResults,
        dependencies,
        180,
    ));
    let mut dependencies: Vec<String> = Vec::new();
    dependencies.push("detect_project".to_owned());
    steps.push(make_step(
        "runtime_performance_analysis",
        "runtime_analyzer",
        WorkflowInput::ProjectInfo,
        WorkflowOutput::AnalysisResults,
        dependencies,
        240,
    ));
    let mut dependencies: Vec<String> = Vec::new();
    dependencies.push("detect_project".to_owned());
    steps.push(make_step(
        "memory_usage_analysis",
        "memory_analyzer",
        WorkflowInput::ProjectInfo,
        WorkflowOutput::AnalysisResults,
        dependencies,
        120,
    ));
    let mut members: Vec<(String, Value)> = Vec::new();
    members.push(("type".to_owned(), text_value("performance_analysis".to_owned())));
    members.push(("include_build".to_owned(), bool_value(true)));
    members.push(("include_runtime".to_owned(), bool_value(true)));
    members.push(("include_memory".to_owned(), bool_value(true)));
    assert(entries_view(members@) =~= seq![
        ("type"@, json_of_text("performance_analysis"@)),
        ("include_build"@, json_of_bool(true)),
        ("include_runtime"@, json_of_bool(true)),
        ("include_memory"@, json_of_bool(true)),
    ]);
    let mut dependencies: Vec<String> = Vec::new();
    dependencies.push("build_performance_analysis".to_owned());
    dependencies.push("runtime_performance_analysis".to_owned());
    dependencies.push("memory_usage_analysis".to_owned());
    steps.push(make_step(
        "generate_report",
        "report_generator",
        WorkflowInput::Custom(object_value(members)),
        WorkflowOutput::Report,
        dependencies,
        120,
    ));
    let name = "Performance Analysis Workflow".to_owned();
    let w = make_workflow(
        name,
        "Comprehensive performance analysis and optimization recommendations",
        WorkflowTrigger::Manual,
        steps,
    );
    proof {
        reveal_strlit("detect_project");
        reveal_strlit("build_performance_analysis");
        reveal_strlit("runtime_performance_analysis");
        reveal_strlit("memory_usage_analysis");
        reveal_strlit("generate_report");
        let names = step_names(&w);
        assert(names[0] == "detect_project"@);
        assert(names[1] == "build_performance_analysis"@);
        assert(names[2] == "runtime_performance_analysis"@);
        assert(names[3] == "memory_usage_analysis"@);
        assert(names[4] == "generate_report"@);
        assert(names[0] != names[1]);
        assert(names[0] != names[2]);
        assert(names[0] != names[3]);
        assert(names[0] != names[4]);
        assert(names[1] != names[2]);
        assert(names[1] != names[3]);
        assert(names[1] != names[4]);
        assert(names[2] != names[3]);
        assert(names[2] != names[4]);
        assert(names[3] != names[4]);
        assert(names_unique(&w));
        assert forall|i: int, k: int|
            0 <= i < w.steps@.len() && 0 <= k < w.steps@[i].dependencies@.len() implies exists|j: int|
            0 <= j < i && step_names(&w)[j] == #[trigger] dependency_names(&w, i)[k] by {
            if i == 1 && k == 0 {
                assert(dependency_names(&w, 1)[0] == "detect_project"@);
                assert(step_names(&w)[0] == "detect_project"@);
            }
            if i == 2 && k == 0 {
                assert(dependency_names(&w, 2)[0] == "detect_project"@);
                assert(step_names(&w)[0] == "detect_project"@);
            }
            if i == 3 && k == 0 {
                assert(dependency_names(&w, 3)[0] == "detect_project"@);
                assert(step_names(&w)[0] == "detect_project"@);
            }
            if i == 4 && k == 0 {
                assert(dependency_names(&w, 4)[0] == "build_performance_analysis"@);
                assert(step_names(&w)[1] == "build_performance_analysis"@);
            }
            if i == 4 && k == 1 {
                assert(dependency_names(&w, 4)[1] == "runtime_performance_analysis"@);
                assert(step_names(&w)[2] == "runtime_performance_analysis"@);
            }
            if i == 4 && k == 2 {
                assert(dependency_names(&w, 4)[2] == "memory_usage_analysis"@);
                assert(step_names(&w)[3] == "memory_usage_analysis"@);
            }
        }
        lemma_ordered_workflow_is_valid(&w);
    }
    Ok(w)
}

/// What `create_workflow_definition` builds for a workflow type and a pull
/// request number.
pub open spec fn describes_workflow_definition(
    w: &WorkflowDefinition,
    workflow_type: Seq<char>,
    pr_number: Option<u64>,
) -> bool {
    if workflow_type == "pr_review"@ {
        &&& workflow_is(
            w,
            "PR Review Workflow - PR #"@ + decimal_text(
                match pr_number {
                    Some(n) => n as nat,
                    None => 0nat,
                },
            ),
            "Comprehensive PR review workflow"@,
            WorkflowTrigger::PullRequest,
        )
        &&& if pr_number is Some {
            &&& w.steps@.len() == 3
            &&& step_is(
                w.steps@[0],
                "detect_project"@,
                "project_detector"@,
                Seq::<Seq<char>>::empty(),
                30,
            )
            &&& w.steps@[0].input == WorkflowInput::ProjectPath(path_of_text("."@))
            &&& w.steps@[0].output == WorkflowOutput::ProjectInfo
            &&& step_is(
                w.steps@[1],
                "analyze_code"@,
                "analysis_engine"@,
                seq!["detect_project"@],
                300,
            )
            &&& w.steps@[1].input == WorkflowInput::ProjectInfo
            &&& w.steps@[1].output == WorkflowOutput::AnalysisResults
            &&& step_is(
                w.steps@[2],
                "copilot_review"@,
                "copilot_integration"@,
                seq!["analyze_code"@],
                600,
            )
            &&& w.steps@[2].input == WorkflowInput::CopilotPrompt
            &&& w.steps@[2].output == WorkflowOutput::CopilotResponse
        } else {
            &&& w.steps@.len() == 2
            &&& step_is(
                w.steps@[0],
                "detect_project"@,
                "project_detector"@,
                Seq::<Seq<char>>::empty(),
                30,
            )
            &&& w.steps@[0].input == WorkflowInput::ProjectPath(path_of_text("."@))
            &&& w.steps@[0].output == WorkflowOutput::ProjectInfo
            &&& step_is(
                w.steps@[1],
                "analyze_code"@,
                "analysis_engine"@,
                seq!["detect_project"@],
                300,
            )
            &&& w.steps@[1].input == WorkflowInput::ProjectInfo
            &&& w.steps@[1].output == WorkflowOutput::AnalysisResults
        }
    } else if workflow_type == "full_analysis"@ {
        &&& workflow_is(
            w,
            "Full Analysis Workflow"@,
            "Comprehensive code analysis workflow"@,
            WorkflowTrigger::Manual,
        )
        &&& w.steps@.len() == 3
        &&& step_is(
            w.steps@[0],
            "detect_project"@,
            "project_detector"@,
            Seq::<Seq<char>>::empty(),
            30,
        )
        &&& w.steps@[0].input == WorkflowInput::ProjectPath(path_of_text("."@))
        &&& w.steps@[0].output == WorkflowOutput::ProjectInfo
        &&& step_is(w.steps@[1], "analyze_code"@, "analysis_engine"@, seq!["detect_project"@], 300)
        &&& w.steps@[1].input == WorkflowInput::ProjectInfo
        &&& w.steps@[1].output == WorkflowOutput::AnalysisResults
        &&& step_is(
            w.steps@[2],
            "security_scan"@,
            "security_scanner"@,
            seq!["detect_project"@],
            180,
        )
        &&& w.steps@[2].input == WorkflowInput::ProjectInfo
        &&& w.steps@[2].output == WorkflowOutput::AnalysisResults
    } else if workflow_type == "security_scan"@ {
        &&& workflow_is(
            w,
            "Security Scan Workflow"@,
            "Security-focused analysis workflow"@,
            WorkflowTrigger::Manual,
        )
        &&& w.steps@.len() == 2
        &&& step_is(
            w.steps@[0],
            "detect_project"@,
            "project_detector"@,
            Seq::<Seq<char>>::empty(),
            30,
        )
        &&& w.steps@[0].input == WorkflowInput::ProjectPath(path_of_text("."@))
        &&& w.steps@[0].output == WorkflowOutput::ProjectInfo
        &&& step_is(
            w.steps@[1],
            "security_scan"@,
            "security_scanner"@,
            seq!["detect_project"@],
            180,
        )
        &&& w.steps@[1].input == WorkflowInput::ProjectInfo
        &&& w.steps@[1].output == WorkflowOutput::AnalysisResults
    } else if workflow_type == "performance_analysis"@ {
        &&& workflow_is(
            w,
            "Performance Analysis Workflow"@,
            "Performance-focused analysis workflow"@,
            WorkflowTrigger::Manual,
        )
        &&& w.steps@.len() == 2
        &&& step_is(
            w.steps@[0],
            "detect_project"@,
            "project_detector"@,
            Seq::<Seq<char>>::empty(),
            30,
        )
        &&& w.steps@[0].input == WorkflowInput::ProjectPath(path_of_text("."@))
        &&& w.steps@[0].output == WorkflowOutput::ProjectInfo
        &&& step_is(
            w.steps@[1],
            "performance_analysis"@,
            "performance_analyzer"@,
            seq!["detect_project"@],
            240,
        )
        &&& w.steps@[1].input == WorkflowInput::ProjectInfo
        &&& w.steps@[1].output == WorkflowOutput::AnalysisResults
    } else {
        false
    }
}

/// Whether a text names one of the workflow types.
pub open spec fn is_workflow_type(workflow_type: Seq<char>) -> bool {
    workflow_type == "pr_review"@ || workflow_type == "full_analysis"@ || workflow_type
        == "security_scan"@ || workflow_type == "performance_analysis"@
}

/// The short workflow of one of the four types `pr_review`, `full_analysis`,
/// `security_scan` and `performance_analysis`. A review has the step that
/// asks for the review only where a pull request number is given. Any
/// other type is refused.
pub fn create_workflow_definition(workflow_type: &str, pr_number: Option<u64>) -> (r: Result<
    WorkflowDefinition,
    AgentError,
>)
    ensures
        r is Ok <==> is_workflow_type(workflow_type@),
        r matches Ok(w) ==> describes_workflow_definition(&w, workflow_type@, pr_number)
            && structure_valid(&w) && rankable(&w),
        r matches Err(e) ==> (e matches AgentError::Configuration(m) && m@
            == "Unknown workflow type: "@ + workflow_type@),
{
    proof {
        reveal_strlit("pr_review");
        reveal_strlit("full_analysis");
        reveal_strlit("security_scan");
        reveal_strlit("performance_analysis");
    }
    if same_text(workflow_type, "pr_review") {
        let mut name = "PR Review Workflow - PR #".to_owned();
        match pr_number {
            Some(n) => {
                push_decimal(&mut name, n);
                let mut steps: Vec<WorkflowStep> = Vec::new();
                let mut dependencies: Vec<String> = Vec::new();
                steps.push(make_step(
                    "detect_project",
                    "project_detector",
                    WorkflowInput::ProjectPath(path_from_text(".")),
                    WorkflowOutput::ProjectInfo,
                    dependencies,
                    30,
                ));
                let mut dependencies: Vec<String> = Vec::new();
                dependencies.push("detect_project".to_owned());
                steps.push(make_step(
                    "analyze_code",
                    "analysis_engine",
                    WorkflowInput::ProjectInfo,
                    WorkflowOutput::AnalysisResults,
                    dependencies,
                    300,
                ));
                let mut dependencies: Vec<String> = Vec::new();
                dependencies.push("analyze_code".to_owned());
                steps.push(make_step(
                    "copilot_review",
                    "copilot_integration",
                    WorkflowInput::CopilotPrompt,
                    WorkflowOutput::CopilotResponse,
                    dependencies,
                    600,
                ));
                let w = make_workflow(
                    name,
                    "Comprehensive PR review workflow",
                    WorkflowTrigger::PullRequest,
                    steps,
                );
                proof {
                    reveal_strlit("detect_project");
                    reveal_strlit("analyze_code");
                    reveal_strlit("copilot_review");
                    let names = step_names(&w);
                    assert(names[0] == "detect_project"@);
                    assert(names[1] == "analyze_code"@);
                    assert(names[2] == "copilot_review"@);
                    assert(names[0] != names[1]);
                    assert(names[0][0] != names[2][0]);
                    assert(names[0] != names[2]);
                    assert(names[1] != names[2]);
                    assert(names_unique(&w));
                    assert forall|i: int, k: int|
                        0 <= i < w.steps@.len() && 0 <= k < w.steps@[i].dependencies@.len() implies exists|j: int|
                        0 <= j < i && step_names(&w)[j] == #[trigger] dependency_names(&w, i)[k] by {
                        if i == 1 && k == 0 {
                            assert(dependency_names(&w, 1)[0] == "detect_project"@);
                            assert(step_names(&w)[0] == "detect_project"@);
                        }
                        if i == 2 && k == 0 {
                            assert(dependency_names(&w, 2)[0] == "analyze_code"@);
                            assert(step_names(&w)[1] == "analyze_code"@);
                        }
                    }
                    lemma_ordered_workflow_is_valid(&w);
                }
                Ok(w)
            },
            None => {
                push_decimal(&mut name, 0);
                let mut steps: Vec<WorkflowStep> = Vec::new();
                let mut dependencies: Vec<String> = Vec::new();
                steps.push(make_step(
                    "detect_project",
                    "project_detector",
                    WorkflowInput::ProjectPath(path_from_text(".")),
                    WorkflowOutput::ProjectInfo,
                    dependencies,
                    30,
                ));
                let mut dependencies: Vec<String> = Vec::new();
                dependencies.push("detect_project".to_owned());
                steps.push(make_step(
                    "analyze_code",
                    "analysis_engine",
                    WorkflowInput::ProjectInfo,
                    WorkflowOutput::AnalysisResults,
                    dependencies,
                    300,
                ));
                let w = make_workflow(
                    name,
                    "Comprehensive PR review workflow",
                    WorkflowTrigger::PullRequest,
                    steps,
                );
                proof {
                    reveal_strlit("detect_project");
                    reveal_strlit("analyze_code");
                    let names = step_names(&w);
                    assert(names[0] == "detect_project"@);
                    assert(names[1] == "analyze_code"@);
                    assert(names[0] != names[1]);
                    assert(names_unique(&w));
                    assert forall|i: int, k: int|
                        0 <= i < w.steps@.len() && 0 <= k < w.steps@[i].dependencies@.len() implies exists|j: int|
                        0 <= j < i && step_names(&w)[j] == #[trigger] dependency_names(&w, i)[k] by {
                        if i == 1 && k == 0 {
                            assert(dependency_names(&w, 1)[0] == "detect_project"@);
                            assert(step_names(&w)[0] == "detect_project"@);
                        }
                    }
                    lemma_ordered_workflow_is_valid(&w);
                }
                Ok(w)
            },
        }
    } else if same_text(workflow_type, "full_analysis") {
        let mut steps: Vec<WorkflowStep> = Vec::new();
        let mut dependencies: Vec<String> = Vec::new();
        steps.push(make_step(
            "detect_project",
            "project_detector",
            WorkflowInput::ProjectPath(path_from_text(".")),
            WorkflowOutput::ProjectInfo,
            dependencies,
            30,
        ));
        let mut dependencies: Vec<String> = Vec::new();
        dependencies.push("detect_project".to_owned());
        steps.push(make_step(
            "analyze_code",
            "analysis_engine",
            WorkflowInput::ProjectInfo,
            WorkflowOutput::AnalysisResults,
            dependencies,
            300,
        ));
        let mut dependencies: Vec<String> = Vec::new();
        dependencies.push("detect_project".to_owned());
        steps.push(make_step(
            "security_scan",
            "security_scanner",
            WorkflowInput::ProjectInfo,
            WorkflowOutput::AnalysisResults,
            dependencies,
            180,
        ));
        let w = make_workflow(
            "Full Analysis Workflow".to_owned(),
            "Comprehensive code analysis workflow",
            WorkflowTrigger::Manual,
            steps,
        );
        proof {
            reveal_strlit("detect_project");
            reveal_strlit("analyze_code");
            reveal_strlit("security_scan");
            let names = step_names(&w);
            assert(names[0] == "detect_project"@);
            assert(names[1] == "analyze_code"@);
            assert(names[2] == "security_scan"@);
            assert(names[0] != names[1]);
            assert(names[0] != names[2]);
            assert(names[1] != names[2]);
            assert(names_unique(&w));
            assert forall|i: int, k: int|
                0 <= i < w.steps@.len() && 0 <= k < w.steps@[i].dependencies@.len() implies exists|j: int|
                0 <= j < i && step_names(&w)[j] == #[trigger] dependency_names(&w, i)[k] by {
                if i == 1 && k == 0 {
                    assert(dependency_names(&w, 1)[0] == "detect_project"@);
                    assert(step_names(&w)[0] == "detect_project"@);
                }
                if i == 2 && k == 0 {
                    assert(dependency_names(&w, 2)[0] == "detect_project"@);
                    assert(step_names(&w)[0] == "detect_project"@);
                }
            }
            lemma_ordered_workflow_is_valid(&w);
        }
        Ok(w)
    } else if same_text(workflow_type, "security_scan") {
        let mut steps: Vec<WorkflowStep> = Vec::new();
        let mut dependencies: Vec<String> = Vec::new();
        steps.push(make_step(
            "detect_project",
            "project_detector",
            WorkflowInput::ProjectPath(path_from_text(".")),
            WorkflowOutput::ProjectInfo,
            dependencies,
            30,
        ));
        let mut dependencies: Vec<String> = Vec::new();
        dependencies.push("detect_project".to_owned());
        steps.push(make_step(
            "security_scan",
            "security_scanner",
            WorkflowInput::ProjectInfo,
            WorkflowOutput::AnalysisResults,
            dependencies,
            180,
        ));
        let w = make_workflow(
            "Security Scan Workflow".to_owned(),
            "Security-focused analysis workflow",
            WorkflowTrigger::Manual,
            steps,
        );
        proof {
            reveal_strlit("detect_project");
            reveal_strlit("security_scan");
            let names = step_names(&w);
            assert(names[0] == "detect_project"@);
            assert(names[1] == "security_scan"@);
            assert(names[0] != names[1]);
            assert(names_unique(&w));
            assert forall|i: int, k: int|
                0 <= i < w.steps@.len() && 0 <= k < w.steps@[i].dependencies@.len() implies exists|j: int|
                0 <= j < i && step_names(&w)[j] == #[trigger] dependency_names(&w, i)[k] by {
                if i == 1 && k == 0 {
                    assert(dependency_names(&w, 1)[0] == "detect_project"@);
                    assert(step_names(&w)[0] == "detect_project"@);
                }
            }
            lemma_ordered_workflow_is_valid(&w);
        }
        Ok(w)
    } else if same_text(workflow_type, "performance_analysis") {
        let mut steps: Vec<WorkflowStep> = Vec::new();
        let mut dependencies: Vec<String> = Vec::new();
        steps.push(make_step(
            "detect_project",
            "project_detector",
            WorkflowInput::ProjectPath(path_from_text(".")),
            WorkflowOutput::ProjectInfo,
            dependencies,
            30,
        ));
        let mut dependencies: Vec<String> = Vec::new();
        dependencies.push("detect_project".to_owned());
        steps.push(make_step(
            "performance_analysis",
            "performance_analyzer",
            WorkflowInput::ProjectInfo,
            WorkflowOutput::AnalysisResults,
            dependencies,
            240,
        ));
        let w = make_workflow(
            "Performance Analysis Workflow".to_owned(),
            "Performance-focused analysis workflow",
            WorkflowTrigger::Manual,
            steps,
        );
        proof {
            reveal_strlit("detect_project");
            reveal_strlit("performance_analysis");
            let names = step_names(&w);
            assert(names[0] == "detect_project"@);
            assert(names[1] == "performance_analysis"@);
            assert(names[0] != names[1]);
            assert(names_unique(&w));
            assert forall|i: int, k: int|
                0 <= i < w.steps@.len() && 0 <= k < w.steps@[i].dependencies@.len() implies exists|j: int|
                0 <= j < i && step_names(&w)[j] == #[trigger] dependency_names(&w, i)[k] by {
                if i == 1 && k == 0 {
                    assert(dependency_names(&w, 1)[0] == "detect_project"@);
                    assert(step_names(&w)[0] == "detect_project"@);
                }
            }
            lemma_ordered_workflow_is_valid(&w);
        }
        Ok(w)
    } else {
        let mut message = "Unknown workflow type: ".to_owned();
        message.append(workflow_type);
        Err(AgentError::Configuration(message))
    }
}

/// The context of a run of one of the workflows that come with the
/// library: for development, with the type of the workflow in the
/// metadata under `workflow_type`, and with the number of the pull request,
/// where there is one, in the variables under `pr_number`.
pub fn workflow_context(project_path: PathBuf, workflow_type: &str, pr_number: Option<u32>) -> (context:
    WorkflowContext)
    ensures
        context.project_path == project_path,
        context.environment == Environment::Development,
        context.metadata.names() == seq!["workflow_type"@],
        context.metadata.values().len() == 1,
        context.metadata.values()[0]@ == workflow_type@,
        match pr_number {
            Some(n) => context.variables.names() == seq!["pr_number"@]
                && context.variables.values() == seq![json_of_number(n as u64)],
            None => context.variables.names().len() == 0,
        },
{
    let mut variables: NamedMap<Value> = NamedMap::new();
    match pr_number {
        Some(n) => {
            proof {
                assert(variables.names() =~= Seq::empty());
                variables.lemma_same_length();
                assert(variables.values() =~= Seq::empty());
            }
            variables.insert("pr_number".to_owned(), number_value(n as u64));
            assert(variables.names() =~= seq!["pr_number"@]);
            assert(variables.values() =~= seq![json_of_number(n as u64)]);
        },
        None => {},
    }
    let mut metadata: NamedMap<String> = NamedMap::new();
    proof {
        assert(metadata.names() =~= Seq::empty());
        metadata.lemma_same_length();
        assert(metadata.values() =~= Seq::empty());
    }
    metadata.insert("workflow_type".to_owned(), workflow_type.to_owned());
    assert(metadata.names() =~= seq!["workflow_type"@]);
    WorkflowContext { project_path, environment: Environment::Development, variables, metadata }
}

} // verus!
