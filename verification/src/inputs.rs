//! Where a step's input comes from, decided just before the step starts.

use vstd::prelude::*;
use vstd::string::StringExecFns;
use std::path::PathBuf;
use serde_json::Value;
use crate::json::json_of_entries;
use crate::json::json_of_text;
use crate::json::json_text;
use crate::json::object_value;
use crate::json::text_value;
use crate::json::to_text;
use crate::model::AgentError;
use crate::model::ProjectInfo;
use crate::model::WorkflowContext;
use crate::model::WorkflowDefinition;
use crate::model::WorkflowInput;
use crate::model::WorkflowStep;
use crate::named_map::NamedMap;
use crate::outputs::artifact;
use crate::outputs::find_artifact;
use crate::outside::path_text;
use crate::outside::path_to_text;
use crate::text::quote_text;
use crate::text::quoted;

verus! {

/// What a step is started with.
#[derive(Debug, Clone)]
pub enum InputPlan {
    /// The input is this document.
    Ready(Value),
    /// The input is what project detection reports of this directory: the
    /// caller runs the detection and starts the step with its report.
    DetectProject(PathBuf),
}

/// The document that wraps a project path: an object with the path's text
/// under `project_path`.
pub open spec fn project_path_document(path: Seq<char>) -> Value {
    json_of_entries(seq![("project_path"@, json_of_text(path))])
}

/// The input of a step, given the run's context and the results so far.
/// A project path is wrapped from the context's path, which must be valid
/// Unicode. Project information is left to the caller to detect. Analysis
/// results and a prompt are looked up in the results, and it is an error
/// where they are missing. A custom input is handed on as it is.
pub fn prepare_step_input(
    step: &WorkflowStep,
    context: &WorkflowContext,
    w: &WorkflowDefinition,
    results: &NamedMap<Value>,
) -> (r: Result<InputPlan, AgentError>)
    ensures
        match step.input {
            WorkflowInput::ProjectPath(_) => match path_text(context.project_path) {
                Some(text) => r == Ok::<InputPlan, AgentError>(
                    InputPlan::Ready(project_path_document(text)),
                ),
                None => r matches Err(AgentError::Execution(m)) && m@
                    == "Project path is not valid Unicode"@,
            },
            WorkflowInput::ProjectInfo => r == Ok::<InputPlan, AgentError>(
                InputPlan::DetectProject(context.project_path),
            ),
            WorkflowInput::AnalysisResults => match artifact(w, results, "analysis_results"@) {
                Some(v) => r == Ok::<InputPlan, AgentError>(InputPlan::Ready(v)),
                None => r matches Err(AgentError::Execution(m)) && m@
                    == "Analysis results not available"@,
            },
            WorkflowInput::CopilotPrompt => match artifact(w, results, "copilot_prompt"@) {
                Some(v) => r == Ok::<InputPlan, AgentError>(InputPlan::Ready(v)),
                None => r matches Err(AgentError::Execution(m)) && m@
                    == "Copilot prompt not available"@,
            },
            WorkflowInput::Custom(v) => r == Ok::<InputPlan, AgentError>(InputPlan::Ready(v)),
        },
{
    match &step.input {
        WorkflowInput::ProjectPath(_) => match path_to_text(&context.project_path) {
            Some(text) => {
                let mut members: Vec<(String, Value)> = Vec::new();
                members.push(("project_path".to_owned(), text_value(text)));
                assert(crate::json::entries_view(members@) =~= seq![
                    ("project_path"@, json_of_text(text@)),
                ]);
                Ok(InputPlan::Ready(object_value(members)))
            },
            None => Err(AgentError::Execution("Project path is not valid Unicode".to_owned())),
        },
        WorkflowInput::ProjectInfo => Ok(InputPlan::DetectProject(context.project_path.clone())),
        WorkflowInput::AnalysisResults => match find_artifact(w, results, "analysis_results") {
            Some(v) => Ok(InputPlan::Ready(v.clone())),
            None => Err(AgentError::Execution("Analysis results not available".to_owned())),
        },
        WorkflowInput::CopilotPrompt => match find_artifact(w, results, "copilot_prompt") {
            Some(v) => Ok(InputPlan::Ready(v.clone())),
            None => Err(AgentError::Execution("Copilot prompt not available".to_owned())),
        },
        WorkflowInput::Custom(v) => Ok(InputPlan::Ready(v.clone())),
    }
}

/// An optional text as it is written in a program: `Some("...")` or
/// `None`.
pub open spec fn optional_text_form(text: Option<String>) -> Seq<char> {
    match text {
        Some(t) => "Some("@ + quoted(t@) + ")"@,
        None => "None"@,
    }
}

/// The line of a prompt for a variable of the context; empty where the
/// context has no such variable.
pub open spec fn variable_line(context: WorkflowContext, key: Seq<char>, label: Seq<char>) -> Seq<
    char,
> {
    if context.variables.has(key) {
        "\n"@ + label + ": "@ + json_text(context.variables.value_of(key)) + "\n"@
    } else {
        Seq::empty()
    }
}

/// The head of a prompt: what is known of the project.
pub open spec fn prompt_head(info: ProjectInfo) -> Seq<char> {
    "Project Analysis Request\n\nProject Type: "@ + info.project_type.name_text() + "\nLanguage: "@
        + info.language@ + "\nFramework: "@ + optional_text_form(info.framework)
        + "\nBuild System: "@ + optional_text_form(info.build_system) + "\n\n"@
}

/// What every prompt asks for.
pub open spec fn prompt_request() -> Seq<char> {
    "Please provide a comprehensive code review focusing on:\n"@
        + "- Code quality and best practices\n"@ + "- Security considerations\n"@
        + "- Performance optimization opportunities\n"@ + "- Maintainability and readability\n"@
}

/// The prompt for a review of a project: what is known of the project,
/// what the review is to look at, and the environment and the number of
/// the pull request where the context names them.
pub open spec fn copilot_prompt(info: ProjectInfo, context: WorkflowContext) -> Seq<char> {
    prompt_head(info) + prompt_request() + variable_line(context, "environment"@, "Environment"@)
        + variable_line(context, "pr_number"@, "PR Number"@)
}

/// Appends an optional text as it is written in a program.
fn push_optional_text(out: &mut String, text: &Option<String>)
    ensures
        final(out)@ == old(out)@ + optional_text_form(*text),
{
    let ghost base = out@;
    match text {
        Some(t) => {
            out.append("Some(");
            out.append(quote_text(t.as_str()).as_str());
            out.append(")");
            assert(out@ =~= base + optional_text_form(*text));
        },
        None => {
            out.append("None");
        },
    }
}

/// Appends the line of a prompt for a variable of the context.
fn push_variable_line(out: &mut String, context: &WorkflowContext, key: &str, label: &str)
    ensures
        final(out)@ == old(out)@ + variable_line(*context, key@, label@),
{
    let ghost base = out@;
    match context.variables.get(key) {
        Some(value) => {
            out.append("\n");
            out.append(label);
            out.append(": ");
            out.append(to_text(value).as_str());
            out.append("\n");
            assert(out@ =~= base + variable_line(*context, key@, label@));
        },
        None => {
            assert(base + Seq::<char>::empty() =~= base);
        },
    }
}

/// Writes the prompt for a review of a project.
pub fn generate_copilot_prompt(project_info: &ProjectInfo, context: &WorkflowContext) -> (prompt: String)
    ensures
        prompt@ == copilot_prompt(*project_info, *context),
{
    let mut prompt = "Project Analysis Request\n\nProject Type: ".to_owned();
    prompt.append(project_info.project_type.name());
    prompt.append("\nLanguage: ");
    prompt.append(project_info.language.as_str());
    prompt.append("\nFramework: ");
    push_optional_text(&mut prompt, &project_info.framework);
    prompt.append("\nBuild System: ");
    push_optional_text(&mut prompt, &project_info.build_system);
    prompt.append("\n\n");
    assert(prompt@ =~= prompt_head(*project_info));
    let ghost head = prompt@;
    prompt.append("Please provide a comprehensive code review focusing on:\n");
    prompt.append("- Code quality and best practices\n");
    prompt.append("- Security considerations\n");
    prompt.append("- Performance optimization opportunities\n");
    prompt.append("- Maintainability and readability\n");
    assert(prompt@ =~= head + prompt_request());
    push_variable_line(&mut prompt, context, "environment", "Environment");
    push_variable_line(&mut prompt, context, "pr_number", "PR Number");
    prompt
}

/// The document that wraps a prompt: an object with the prompt under
/// `prompt`.
pub open spec fn prompt_document(prompt: Seq<char>) -> Value {
    json_of_entries(seq![("prompt"@, json_of_text(prompt))])
}

/// Wraps a prompt as the input of a step.
pub fn prompt_input(prompt: String) -> (document: Value)
    ensures
        document == prompt_document(prompt@),
{
    let mut members: Vec<(String, Value)> = Vec::new();
    members.push(("prompt".to_owned(), text_value(prompt)));
    assert(crate::json::entries_view(members@) =~= seq![("prompt"@, json_of_text(prompt@))]);
    object_value(members)
}

} // verus!
