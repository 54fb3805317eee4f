//! The outputs of a run: what each declared output is called, where its
//! value comes from, and the report that sums a run up.
//!
//! A value is found under a name in one of two ways. A step of that name
//! that has a result gives it; else the first step, in the order of the
//! workflow, whose declared output has that name and which has a result.

use vstd::prelude::*;
use vstd::string::StringExecFns;
use serde_json::Value;
use crate::json::as_text;
use crate::json::entries;
use crate::json::entries_view;
use crate::json::items;
use crate::json::json_entries;
use crate::json::json_items;
use crate::json::json_member;
use crate::json::json_of_entries;
use crate::json::json_of_text;
use crate::json::json_str;
use crate::json::json_text;
use crate::json::member;
use crate::json::object_value;
use crate::json::text_value;
use crate::json::to_text;
use crate::model::AgentError;
use crate::model::WorkflowDefinition;
use crate::model::WorkflowOutput;
use crate::named_map::NamedMap;
use crate::named_map::position_of;
use crate::text::decimal_text;
use crate::text::push_decimal;
use crate::text::same_text;

verus! {

/// The name under which a declared output appears in the outputs of a
/// run. A custom output is called by the text of its `name` member, or
/// `custom_output` where it has none.
pub open spec fn output_name(output: WorkflowOutput) -> Seq<char> {
    match output {
        WorkflowOutput::ProjectPath(_) => "project_path"@,
        WorkflowOutput::ProjectInfo => "project_info"@,
        WorkflowOutput::AnalysisResults => "analysis_results"@,
        WorkflowOutput::CopilotPrompt => "copilot_prompt"@,
        WorkflowOutput::CopilotResponse => "copilot_response"@,
        WorkflowOutput::Report => "report"@,
        WorkflowOutput::Custom(value) => match json_member(value, "name"@) {
            Some(name) => match json_str(name) {
                Some(text) => text,
                None => "custom_output"@,
            },
            None => "custom_output"@,
        },
    }
}

/// The name under which a declared output appears in the outputs of a run.
pub fn output_name_to_string(output: &WorkflowOutput) -> (name: String)
    ensures
        name@ == output_name(*output),
{
    match output {
        WorkflowOutput::ProjectPath(_) => "project_path".to_owned(),
        WorkflowOutput::ProjectInfo => "project_info".to_owned(),
        WorkflowOutput::AnalysisResults => "analysis_results".to_owned(),
        WorkflowOutput::CopilotPrompt => "copilot_prompt".to_owned(),
        WorkflowOutput::CopilotResponse => "copilot_response".to_owned(),
        WorkflowOutput::Report => "report".to_owned(),
        WorkflowOutput::Custom(value) => match member(value, "name") {
            Some(name) => match as_text(name) {
                Some(text) => text.to_owned(),
                None => "custom_output".to_owned(),
            },
            None => "custom_output".to_owned(),
        },
    }
}

/// Whether step `i` has a result and declares an output of that name.
pub open spec fn produces(
    w: &WorkflowDefinition,
    results: &NamedMap<Value>,
    i: int,
    name: Seq<char>,
) -> bool {
    output_name(w.steps@[i].output) == name && results.has(w.steps@[i].name@)
}

/// The first step at or after `from` that produces `name`, or the number
/// of steps where none does.
pub open spec fn first_producer(
    w: &WorkflowDefinition,
    results: &NamedMap<Value>,
    name: Seq<char>,
    from: int,
) -> int
    decreases w.steps@.len() - from,
{
    if from < 0 || from >= w.steps@.len() {
        w.steps@.len() as int
    } else if produces(w, results, from, name) {
        from
    } else {
        first_producer(w, results, name, from + 1)
    }
}

/// The value that the results of a run hold under a name: the result of
/// the step of that name, else the result of the first step that declares
/// an output of that name.
pub open spec fn artifact(w: &WorkflowDefinition, results: &NamedMap<Value>, name: Seq<char>) -> Option<
    Value,
> {
    if results.has(name) {
        Some(results.value_of(name))
    } else {
        let i = first_producer(w, results, name, 0);
        if i < w.steps@.len() {
            Some(results.value_of(w.steps@[i].name@))
        } else {
            None
        }
    }
}

/// Looks a value up in the results of a run.
pub fn find_artifact<'a>(w: &WorkflowDefinition, results: &'a NamedMap<Value>, name: &str) -> (r: Option<
    &'a Value,
>)
    ensures
        r == match artifact(w, results, name@) {
            Some(v) => Some(&v),
            None => None,
        },
{
    if results.contains_key(name) {
        return results.get(name);
    }
    let n = w.steps.len();
    let mut i: usize = 0;
    while i < n
        invariant
            n == w.steps@.len(),
            i <= n,
            !results.has(name@),
            first_producer(w, results, name@, 0) == first_producer(w, results, name@, i as int),
        decreases n - i,
    {
        let declared = output_name_to_string(&w.steps[i].output);
        if same_text(declared.as_str(), name) && results.contains_key(w.steps[i].name.as_str()) {
            return results.get(w.steps[i].name.as_str());
        }
        i = i + 1;
    }
    None
}

/// One line for each member of an object: two spaces, the key, a colon and
/// the member as JSON text.
pub open spec fn entry_lines(es: Seq<(Seq<char>, Value)>) -> Seq<char>
    decreases es.len(),
{
    if es.len() == 0 {
        Seq::empty()
    } else {
        entry_lines(es.drop_last()) + "  "@ + es.last().0 + ": "@ + json_text(es.last().1) + "\n"@
    }
}

/// The lines for the members of a document; none where it is no object.
pub open spec fn object_lines(v: Value) -> Seq<char> {
    match json_entries(v) {
        Some(es) => entry_lines(es),
        None => Seq::empty(),
    }
}

/// One numbered line for each suggestion, counted from one.
pub open spec fn suggestion_lines(list: Seq<Value>) -> Seq<char>
    decreases list.len(),
{
    if list.len() == 0 {
        Seq::empty()
    } else {
        suggestion_lines(list.drop_last()) + "  "@ + decimal_text(list.len()) + ". "@ + json_text(
            list.last(),
        ) + "\n"@
    }
}

/// The lines for the `suggestions` of a review; none where the review
/// holds no array of that name.
pub open spec fn review_lines(v: Value) -> Seq<char> {
    match json_member(v, "suggestions"@) {
        Some(s) => match json_items(s) {
            Some(list) => suggestion_lines(list),
            None => Seq::empty(),
        },
        None => Seq::empty(),
    }
}

/// The heading of every summary.
pub open spec fn summary_heading() -> Seq<char> {
    "Code Review Analysis Report\n"@ + "===========================\n\n"@
}

/// The part of the summary on the project; empty where the run has no
/// project information.
pub open spec fn project_part(project_info: Option<Value>) -> Seq<char> {
    match project_info {
        Some(v) => "Project Information:\n"@ + object_lines(v) + "\n"@,
        None => Seq::empty(),
    }
}

/// The part of the summary on the analysis; empty where the run has no
/// analysis results.
pub open spec fn analysis_part(analysis_results: Option<Value>) -> Seq<char> {
    match analysis_results {
        Some(v) => "Analysis Results:\n"@ + object_lines(v) + "\n"@,
        None => Seq::empty(),
    }
}

/// The part of the summary on the review; empty where the run has no
/// review.
pub open spec fn review_part(copilot_response: Option<Value>) -> Seq<char> {
    match copilot_response {
        Some(v) => "Copilot Review:\n"@ + review_lines(v) + "\n"@,
        None => Seq::empty(),
    }
}

/// The summary of a report: the heading and a part for each section that
/// the run has.
pub open spec fn report_summary(
    project_info: Option<Value>,
    analysis_results: Option<Value>,
    copilot_response: Option<Value>,
) -> Seq<char> {
    summary_heading() + project_part(project_info) + analysis_part(analysis_results) + review_part(
        copilot_response,
    )
}

/// Appends a line for each member of an object.
fn push_object_lines(out: &mut String, v: &Value)
    ensures
        final(out)@ == old(out)@ + object_lines(*v),
{
    let ghost base = out@;
    match entries(v) {
        None => {
            assert(base + Seq::<char>::empty() =~= base);
        },
        Some(list) => {
            let ghost es = entries_view(list@);
            let mut i: usize = 0;
            assert(es.subrange(0, 0) =~= Seq::empty());
            assert(base + Seq::<char>::empty() =~= base);
            while i < list.len()
                invariant
                    i <= list@.len(),
                    es == entries_view(list@),
                    out@ == base + entry_lines(es.subrange(0, i as int)),
                decreases list@.len() - i,
            {
                let ghost before = out@;
                let text = to_text(&list[i].1);
                out.append("  ");
                out.append(list[i].0.as_str());
                out.append(": ");
                out.append(text.as_str());
                out.append("\n");
                proof {
                    let next = es.subrange(0, i + 1);
                    assert(next.drop_last() =~= es.subrange(0, i as int));
                    assert(next.last() == es[i as int]);
                    assert(out@ =~= base + entry_lines(next));
                }
                i = i + 1;
            }
            assert(es.subrange(0, list@.len() as int) =~= es);
        },
    }
}

/// Appends a numbered line for each suggestion of a review.
fn push_review_lines(out: &mut String, v: &Value)
    ensures
        final(out)@ == old(out)@ + review_lines(*v),
{
    let ghost base = out@;
    assert(base + Seq::<char>::empty() =~= base);
    match member(v, "suggestions") {
        None => {},
        Some(suggestions) => match items(suggestions) {
            None => {},
            Some(list) => {
                let mut i: usize = 0;
                assert(list@.subrange(0, 0) =~= Seq::empty());
                while i < list.len()
                    invariant
                        i <= list@.len(),
                        out@ == base + suggestion_lines(list@.subrange(0, i as int)),
                    decreases list@.len() - i,
                {
                    let text = to_text(&list[i]);
                    out.append("  ");
                    push_decimal(out, (i + 1) as u64);
                    out.append(". ");
                    out.append(text.as_str());
                    out.append("\n");
                    proof {
                        let next = list@.subrange(0, i + 1);
                        assert(next.drop_last() =~= list@.subrange(0, i as int));
                        assert(next.last() == list@[i as int]);
                        assert(out@ =~= base + suggestion_lines(next));
                    }
                    i = i + 1;
                }
                assert(list@.subrange(0, list@.len() as int) =~= list@);
            },
        },
    }
}

/// Writes the summary of a report from the sections that the run has.
pub fn generate_report_summary(
    project_info: Option<&Value>,
    analysis_results: Option<&Value>,
    copilot_response: Option<&Value>,
) -> (summary: String)
    ensures
        summary@ == report_summary(
            match project_info {
                Some(v) => Some(*v),
                None => None,
            },
            match analysis_results {
                Some(v) => Some(*v),
                None => None,
            },
            match copilot_response {
                Some(v) => Some(*v),
                None => None,
            },
        ),
{
    let mut summary = "Code Review Analysis Report\n".to_owned();
    summary.append("===========================\n\n");
    let ghost heading = summary@;
    match project_info {
        Some(v) => {
            summary.append("Project Information:\n");
            push_object_lines(&mut summary, v);
            summary.append("\n");
            assert(summary@ =~= heading + project_part(Some(*v)));
        },
        None => {
            assert(summary@ =~= heading + project_part(None));
        },
    }
    let ghost first = summary@;
    match analysis_results {
        Some(v) => {
            summary.append("Analysis Results:\n");
            push_object_lines(&mut summary, v);
            summary.append("\n");
            assert(summary@ =~= first + analysis_part(Some(*v)));
        },
        None => {
            assert(summary@ =~= first + analysis_part(None));
        },
    }
    let ghost second = summary@;
    match copilot_response {
        Some(v) => {
            summary.append("Copilot Review:\n");
            push_review_lines(&mut summary, v);
            summary.append("\n");
            assert(summary@ =~= second + review_part(Some(*v)));
        },
        None => {
            assert(summary@ =~= second + review_part(None));
        },
    }
    summary
}

/// The section of a report under `name`: present where the results hold a
/// value under that name.
pub open spec fn report_section(
    w: &WorkflowDefinition,
    results: &NamedMap<Value>,
    name: Seq<char>,
) -> Seq<(Seq<char>, Value)> {
    match artifact(w, results, name) {
        Some(v) => seq![(name, v)],
        None => Seq::empty(),
    }
}

/// The members of a report: the sections that the run has, the summary,
/// and the time at which the report was made.
pub open spec fn report_entries(
    w: &WorkflowDefinition,
    results: &NamedMap<Value>,
    generated_at: Seq<char>,
) -> Seq<(Seq<char>, Value)> {
    report_section(w, results, "project_info"@) + report_section(w, results, "analysis_results"@)
        + report_section(w, results, "copilot_response"@) + seq![
        (
            "summary"@,
            json_of_text(
                report_summary(
                    artifact(w, results, "project_info"@),
                    artifact(w, results, "analysis_results"@),
                    artifact(w, results, "copilot_response"@),
                ),
            ),
        ),
        ("generated_at"@, json_of_text(generated_at)),
    ]
}

/// The report of a run, made at the time `generated_at`.
pub open spec fn report_document(
    w: &WorkflowDefinition,
    results: &NamedMap<Value>,
    generated_at: Seq<char>,
) -> Value {
    json_of_entries(report_entries(w, results, generated_at))
}

/// Builds the report of a run: an object with the project information, the
/// analysis results and the review, as far as the run has them, a summary
/// of these, and the time `generated_at`.
pub fn generate_report(w: &WorkflowDefinition, results: &NamedMap<Value>, generated_at: &str) -> (report:
    Value)
    ensures
        report == report_document(w, results, generated_at@),
{
    let project_info = find_artifact(w, results, "project_info");
    let analysis_results = find_artifact(w, results, "analysis_results");
    let copilot_response = find_artifact(w, results, "copilot_response");
    let mut members: Vec<(String, Value)> = Vec::new();
    match project_info {
        Some(v) => {
            members.push(("project_info".to_owned(), v.clone()));
        },
        None => {},
    }
    assert(entries_view(members@) =~= report_section(w, results, "project_info"@));
    let ghost first = entries_view(members@);
    match analysis_results {
        Some(v) => {
            members.push(("analysis_results".to_owned(), v.clone()));
        },
        None => {},
    }
    assert(entries_view(members@) =~= first + report_section(w, results, "analysis_results"@));
    let ghost second = entries_view(members@);
    match copilot_response {
        Some(v) => {
            members.push(("copilot_response".to_owned(), v.clone()));
        },
        None => {},
    }
    assert(entries_view(members@) =~= second + report_section(w, results, "copilot_response"@));
    let ghost third = entries_view(members@);
    let summary = generate_report_summary(project_info, analysis_results, copilot_response);
    members.push(("summary".to_owned(), text_value(summary)));
    members.push(("generated_at".to_owned(), text_value(generated_at.to_owned())));
    assert(entries_view(members@) =~= report_entries(w, results, generated_at@));
    object_value(members)
}

/// The value of a declared output, or `None` where the run has none for
/// it. The report and a custom output always have a value.
pub open spec fn output_value(
    w: &WorkflowDefinition,
    results: &NamedMap<Value>,
    generated_at: Seq<char>,
    output: WorkflowOutput,
) -> Option<Value> {
    match output {
        WorkflowOutput::ProjectPath(_) => artifact(w, results, "project_path"@),
        WorkflowOutput::ProjectInfo => artifact(w, results, "project_info"@),
        WorkflowOutput::AnalysisResults => artifact(w, results, "analysis_results"@),
        WorkflowOutput::CopilotPrompt => artifact(w, results, "copilot_prompt"@),
        WorkflowOutput::CopilotResponse => artifact(w, results, "copilot_response"@),
        WorkflowOutput::Report => Some(report_document(w, results, generated_at)),
        WorkflowOutput::Custom(value) => Some(value),
    }
}

/// The text of the error for a declared output that the run has no value
/// for.
pub open spec fn missing_output_message(output: WorkflowOutput) -> Seq<char> {
    match output {
        WorkflowOutput::ProjectPath(_) => "Project path not available"@,
        WorkflowOutput::ProjectInfo => "Project info not available"@,
        WorkflowOutput::AnalysisResults => "Analysis results not available"@,
        WorkflowOutput::CopilotPrompt => "Copilot prompt not available"@,
        WorkflowOutput::CopilotResponse => "Copilot response not available"@,
        WorkflowOutput::Report => "Report not available"@,
        WorkflowOutput::Custom(_) => "Custom output not available"@,
    }
}

/// Names and values after `value` is put under `name`: a name that is
/// there keeps its place, a new one goes to the end.
pub open spec fn put(
    names: Seq<Seq<char>>,
    values: Seq<Value>,
    name: Seq<char>,
    value: Value,
) -> (Seq<Seq<char>>, Seq<Value>) {
    if names.contains(name) {
        (names, values.update(position_of(names, name), value))
    } else {
        (names.push(name), values.push(value))
    }
}

/// The names and values of the first `count` declared outputs, each put
/// under its name in the order of the declaration.
pub open spec fn collected_outputs(
    w: &WorkflowDefinition,
    results: &NamedMap<Value>,
    generated_at: Seq<char>,
    count: nat,
) -> (Seq<Seq<char>>, Seq<Value>)
    decreases count,
{
    if count == 0 {
        (Seq::empty(), Seq::empty())
    } else {
        let before = collected_outputs(w, results, generated_at, (count - 1) as nat);
        let output = w.outputs@[count - 1];
        put(
            before.0,
            before.1,
            output_name(output),
            output_value(w, results, generated_at, output)->0,
        )
    }
}

/// The value of one declared output, or the error that says which is
/// missing.
fn resolve_output(
    w: &WorkflowDefinition,
    results: &NamedMap<Value>,
    generated_at: &str,
    output: &WorkflowOutput,
) -> (r: Result<Value, AgentError>)
    ensures
        match r {
            Ok(v) => output_value(w, results, generated_at@, *output) == Some(v),
            Err(e) => output_value(w, results, generated_at@, *output) is None && (
            e matches AgentError::Execution(message) && message@ == missing_output_message(*output)),
        },
{
    let found = match output {
        WorkflowOutput::ProjectPath(_) => find_artifact(w, results, "project_path"),
        WorkflowOutput::ProjectInfo => find_artifact(w, results, "project_info"),
        WorkflowOutput::AnalysisResults => find_artifact(w, results, "analysis_results"),
        WorkflowOutput::CopilotPrompt => find_artifact(w, results, "copilot_prompt"),
        WorkflowOutput::CopilotResponse => find_artifact(w, results, "copilot_response"),
        WorkflowOutput::Report => {
            return Ok(generate_report(w, results, generated_at));
        },
        WorkflowOutput::Custom(value) => {
            return Ok(value.clone());
        },
    };
    match found {
        Some(v) => Ok(v.clone()),
        None => {
            let message = match output {
                WorkflowOutput::ProjectPath(_) => "Project path not available".to_owned(),
                WorkflowOutput::ProjectInfo => "Project info not available".to_owned(),
                WorkflowOutput::AnalysisResults => "Analysis results not available".to_owned(),
                WorkflowOutput::CopilotPrompt => "Copilot prompt not available".to_owned(),
                WorkflowOutput::CopilotResponse => "Copilot response not available".to_owned(),
                WorkflowOutput::Report => "Report not available".to_owned(),
                WorkflowOutput::Custom(_) => "Custom output not available".to_owned(),
            };
            Err(AgentError::Execution(message))
        },
    }
}

/// Every declared output has a value.
pub open spec fn outputs_available(
    w: &WorkflowDefinition,
    results: &NamedMap<Value>,
    generated_at: Seq<char>,
) -> bool {
    forall|k: int|
        0 <= k < w.outputs@.len() ==> output_value(w, results, generated_at, #[trigger] w.outputs@[k])
            is Some
}

/// Whether `error` is the error for the first declared output that has no
/// value.
pub open spec fn is_missing_output_error(
    w: &WorkflowDefinition,
    results: &NamedMap<Value>,
    generated_at: Seq<char>,
    error: AgentError,
) -> bool {
    exists|k: int|
        0 <= k < w.outputs@.len() && output_value(w, results, generated_at, #[trigger] w.outputs@[k])
            is None && (forall|j: int|
            0 <= j < k ==> output_value(w, results, generated_at, #[trigger] w.outputs@[j])
                is Some) && (error matches AgentError::Execution(message) && message@
            == missing_output_message(w.outputs@[k]))
}

/// Projects the results of a run onto the outputs that the workflow
/// declares, in the order of the declaration. Succeeds exactly when every
/// declared output has a value; else the error names the first that has
/// none.
pub fn generate_outputs(w: &WorkflowDefinition, results: &NamedMap<Value>, generated_at: &str) -> (r:
    Result<NamedMap<Value>, AgentError>)
    ensures
        r is Ok <==> outputs_available(w, results, generated_at@),
        r matches Ok(outputs) ==> outputs.wf() && (outputs.names(), outputs.values())
            == collected_outputs(w, results, generated_at@, w.outputs@.len()),
        r matches Err(e) ==> is_missing_output_error(w, results, generated_at@, e),
{
    let mut outputs: NamedMap<Value> = NamedMap::new();
    let n = w.outputs.len();
    let mut k: usize = 0;
    proof {
        assert(outputs.names() =~= Seq::empty());
        assert(outputs.values() =~= Seq::empty());
    }
    while k < n
        invariant
            n == w.outputs@.len(),
            k <= n,
            outputs.wf(),
            forall|j: int|
                0 <= j < k ==> output_value(w, results, generated_at@, #[trigger] w.outputs@[j])
                    is Some,
            (outputs.names(), outputs.values()) == collected_outputs(
                w,
                results,
                generated_at@,
                k as nat,
            ),
        decreases n - k,
    {
        let output = &w.outputs[k];
        match resolve_output(w, results, generated_at, output) {
            Ok(value) => {
                outputs.insert(output_name_to_string(output), value);
            },
            Err(e) => {
                return Err(e);
            },
        }
        k = k + 1;
    }
    Ok(outputs)
}

} // verus!
