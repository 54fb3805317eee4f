//! The code-analysis agent: what it is asked and what it reports.

use vstd::prelude::*;
use vstd::string::StringExecFns;
use std::path::PathBuf;
use std::time::Duration;
use serde_json::Value;
use crate::json::as_number;
use crate::json::as_text;
use crate::json::items;
use crate::json::json_items;
use crate::json::json_member;
use crate::json::json_parsed;
use crate::json::json_str;
use crate::json::json_u64;
use crate::json::member;
use crate::json::parse_json;
use crate::model::AgentCapability;
use crate::model::AgentError;
use crate::model::ProjectInfo;
use crate::model::ProjectType;
use crate::outside::path_from_text;
use crate::outside::path_of_text;
use crate::outside::seconds;
use crate::registry::AgentProfile;
use crate::text::chars_of;
use crate::text::lines_of;
use crate::text::same_text;
use crate::text::split_lines;
use crate::text::text_of;

verus! {

/// Why a code analysis failed.
#[derive(Debug, Clone)]
pub enum CodeAnalysisError {
    CommandFailed(String),
    ParseError(String),
    UnsupportedProjectType(ProjectType),
    IoError(String),
}

/// The agent that analyses code quality.
pub struct CodeAnalysisAgent {
    name: String,
    version: String,
    description: String,
    supported_types: Vec<ProjectType>,
    capabilities: Vec<AgentCapability>,
}

impl CodeAnalysisAgent {
    pub closed spec fn name_text(&self) -> Seq<char> {
        self.name@
    }

    pub closed spec fn version_text(&self) -> Seq<char> {
        self.version@
    }

    pub closed spec fn description_text(&self) -> Seq<char> {
        self.description@
    }

    pub closed spec fn supported(&self) -> Seq<ProjectType> {
        self.supported_types@
    }

    pub closed spec fn abilities(&self) -> Seq<AgentCapability> {
        self.capabilities@
    }

    /// The agent as it is registered: five supported project types and two
    /// capabilities.
    pub fn new() -> (agent: Self)
        ensures
            agent.name_text() == "code_analysis"@,
            agent.version_text() == "1.0.0"@,
            agent.description_text() == "Analyzes code quality, style, and potential issues"@,
            agent.supported() == seq![
                ProjectType::Rust,
                ProjectType::Nodejs,
                ProjectType::Python,
                ProjectType::Java,
                ProjectType::Go,
            ],
            agent.abilities() == seq![AgentCapability::CodeAnalysis, AgentCapability::TestCoverage],
    {
        let mut supported_types: Vec<ProjectType> = Vec::new();
        supported_types.push(ProjectType::Rust);
        supported_types.push(ProjectType::Nodejs);
        supported_types.push(ProjectType::Python);
        supported_types.push(ProjectType::Java);
        supported_types.push(ProjectType::Go);
        let mut capabilities: Vec<AgentCapability> = Vec::new();
        capabilities.push(AgentCapability::CodeAnalysis);
        capabilities.push(AgentCapability::TestCoverage);
        CodeAnalysisAgent {
            name: "code_analysis".to_owned(),
            version: "1.0.0".to_owned(),
            description: "Analyzes code quality, style, and potential issues".to_owned(),
            supported_types,
            capabilities,
        }
    }

    pub fn name(&self) -> (r: &str)
        ensures
            r@ == self.name_text(),
    {
        self.name.as_str()
    }

    pub fn version(&self) -> (r: &str)
        ensures
            r@ == self.version_text(),
    {
        self.version.as_str()
    }

    pub fn description(&self) -> (r: &str)
        ensures
            r@ == self.description_text(),
    {
        self.description.as_str()
    }

    pub fn supported_project_types(&self) -> (r: &[ProjectType])
        ensures
            r@ == self.supported(),
    {
        self.supported_types.as_slice()
    }

    pub fn capabilities(&self) -> (r: &[AgentCapability])
        ensures
            r@ == self.abilities(),
    {
        self.capabilities.as_slice()
    }

    /// What the registry is to know of the agent.
    pub fn profile(&self) -> (profile: AgentProfile)
        ensures
            profile.name@ == self.name_text(),
            profile.version@ == self.version_text(),
            profile.description@ == self.description_text(),
            profile.supported_types@ == self.supported(),
            profile.capabilities@ == self.abilities(),
    {
        let mut supported_types: Vec<ProjectType> = Vec::new();
        let mut i: usize = 0;
        while i < self.supported_types.len()
            invariant
                i <= self.supported_types@.len(),
                supported_types@ == self.supported_types@.take(i as int),
            decreases self.supported_types@.len() - i,
        {
            supported_types.push(self.supported_types[i]);
            assert(self.supported_types@.take(i + 1) =~= self.supported_types@.take(i as int).push(
                self.supported_types@[i as int],
            ));
            i = i + 1;
        }
        assert(self.supported_types@.take(self.supported_types@.len() as int)
            =~= self.supported_types@);
        let mut capabilities: Vec<AgentCapability> = Vec::new();
        let mut k: usize = 0;
        while k < self.capabilities.len()
            invariant
                k <= self.capabilities@.len(),
                capabilities@ == self.capabilities@.take(k as int),
            decreases self.capabilities@.len() - k,
        {
            capabilities.push(self.capabilities[k]);
            assert(self.capabilities@.take(k + 1) =~= self.capabilities@.take(k as int).push(
                self.capabilities@[k as int],
            ));
            k = k + 1;
        }
        assert(self.capabilities@.take(self.capabilities@.len() as int) =~= self.capabilities@);
        AgentProfile {
            name: self.name.clone(),
            version: self.version.clone(),
            description: self.description.clone(),
            supported_types,
            capabilities,
        }
    }
}

/// What the code-analysis agent is asked to do.
#[derive(Debug, Clone)]
pub struct CodeAnalysisInput {
    pub project_path: PathBuf,
    pub project_info: ProjectInfo,
    pub analysis_type: AnalysisType,
    pub options: AnalysisOptions,
}

/// The kind of analysis asked for.
#[derive(Debug, Clone, Copy, PartialEq, Eq, Structural)]
pub enum AnalysisType {
    Lint,
    Format,
    Security,
    Performance,
    Dependencies,
    TestCoverage,
}

/// How an analysis is to be run and reported.
#[derive(Debug, Clone)]
pub struct AnalysisOptions {
    pub strict_mode: bool,
    pub include_tests: bool,
    pub output_format: OutputFormat,
    pub custom_rules: Vec<String>,
}

impl Default for AnalysisOptions {
    fn default() -> (options: Self)
        ensures
            !options.strict_mode,
            options.include_tests,
            options.output_format == OutputFormat::Json,
            options.custom_rules@.len() == 0,
    {
        AnalysisOptions {
            strict_mode: false,
            include_tests: true,
            output_format: OutputFormat::Json,
            custom_rules: Vec::new(),
        }
    }
}

/// The format of an analysis report.
#[derive(Debug, Clone, Copy, PartialEq, Eq, Structural)]
pub enum OutputFormat {
    Json,
    Text,
    Html,
    Sarif,
}

/// One finding of an analysis.
#[derive(Debug, Clone)]
pub struct Issue {
    pub severity: IssueSeverity,
    pub category: IssueCategory,
    pub file: PathBuf,
    pub line: Option<u32>,
    pub message: String,
    pub rule: String,
    pub suggestion: Option<String>,
}

/// How grave a finding is.
#[derive(Debug, Clone, Copy, PartialEq, Eq, Hash, Structural)]
pub enum IssueSeverity {
    Error,
    Warning,
    Info,
    Style,
}

/// What a finding is about.
#[derive(Debug, Clone, Copy, PartialEq, Eq, Structural)]
pub enum IssueCategory {
    Security,
    Performance,
    Correctness,
    Style,
    Complexity,
    Maintainability,
}

/// A recommendation that an analysis makes.
#[derive(Debug, Clone)]
pub struct Suggestion {
    pub title: String,
    pub description: String,
    pub priority: u8,
    pub effort: EffortLevel,
    pub files_affected: Vec<PathBuf>,
}

/// How much work a recommendation takes.
#[derive(Debug, Clone, Copy, PartialEq, Eq, Structural)]
pub enum EffortLevel {
    Low,
    Medium,
    High,
}

impl AgentError {
    /// The error of the engine that stands for an error of the code
    /// analysis: the text of its kind and its own text, and for a project
    /// type that is not supported the same error of the engine.
    pub fn from_code_analysis(err: CodeAnalysisError) -> (e: AgentError)
        ensures
            match err {
                CodeAnalysisError::CommandFailed(msg) => e matches AgentError::CodeAnalysis(m)
                    && m@ == "Command failed: "@ + msg@,
                CodeAnalysisError::ParseError(msg) => e matches AgentError::CodeAnalysis(m) && m@
                    == "Parse error: "@ + msg@,
                CodeAnalysisError::UnsupportedProjectType(t) => e
                    == AgentError::UnsupportedProjectType(t),
                CodeAnalysisError::IoError(msg) => e == AgentError::Io(msg),
            },
    {
        match err {
            CodeAnalysisError::CommandFailed(msg) => AgentError::CodeAnalysis(
                "Command failed: ".to_owned().concat(msg.as_str()),
            ),
            CodeAnalysisError::ParseError(msg) => AgentError::CodeAnalysis(
                "Parse error: ".to_owned().concat(msg.as_str()),
            ),
            CodeAnalysisError::UnsupportedProjectType(t) => AgentError::UnsupportedProjectType(t),
            CodeAnalysisError::IoError(msg) => AgentError::Io(msg),
        }
    }
}

/// The numbers of an analysis. The coverage and the complexity are kept
/// as the bits of a double precision float.
#[derive(Debug, Clone)]
pub struct AnalysisMetrics {
    pub total_files: u32,
    pub total_lines: u32,
    pub issues_count: Vec<(IssueSeverity, u32)>,
    pub coverage_percentage: Option<u64>,
    pub complexity_score: Option<u64>,
}

/// What an analysis found.
#[derive(Debug, Clone)]
pub struct CodeAnalysisResult {
    pub success: bool,
    pub issues: Vec<Issue>,
    pub metrics: AnalysisMetrics,
    pub suggestions: Vec<Suggestion>,
    pub execution_time: Duration,
}

/// Whether the agent analyses projects of that type.
pub open spec fn is_analysed(project_type: ProjectType) -> bool {
    project_type == ProjectType::Rust || project_type == ProjectType::Nodejs || project_type
        == ProjectType::Python || project_type == ProjectType::Java || project_type
        == ProjectType::Go
}

impl CodeAnalysisAgent {
    /// Refuses a project of a type that the agent does not analyse.
    pub fn check_supported(&self, project_type: ProjectType) -> (r: Result<(), AgentError>)
        ensures
            is_analysed(project_type) ==> r is Ok,
            !is_analysed(project_type) ==> r == Err::<(), AgentError>(
                AgentError::UnsupportedProjectType(project_type),
            ),
    {
        match project_type {
            ProjectType::Rust | ProjectType::Nodejs | ProjectType::Python | ProjectType::Java | ProjectType::Go => Ok(
                (),
            ),
            _ => Err(
                AgentError::from_code_analysis(CodeAnalysisError::UnsupportedProjectType(project_type)),
            ),
        }
    }
}

/// The severity that a level of the compiler stands for.
pub open spec fn severity_of_level(level: Option<Seq<char>>) -> IssueSeverity {
    if level == Some("error"@) {
        IssueSeverity::Error
    } else if level == Some("warning"@) {
        IssueSeverity::Warning
    } else {
        IssueSeverity::Info
    }
}

/// The first span of a compiler message.
pub open spec fn first_span(message: Value) -> Option<Value> {
    match json_member(message, "spans"@) {
        Some(spans) => match json_items(spans) {
            Some(list) => if list.len() > 0 {
                Some(list[0])
            } else {
                None
            },
            None => None,
        },
        None => None,
    }
}

/// The text under a key of the first span of a compiler message.
pub open spec fn span_text(message: Value, key: Seq<char>) -> Option<Seq<char>> {
    match first_span(message) {
        Some(span) => match json_member(span, key) {
            Some(v) => json_str(v),
            None => None,
        },
        None => None,
    }
}

/// The number under a key of the first span of a compiler message.
pub open spec fn span_number(message: Value, key: Seq<char>) -> Option<u64> {
    match first_span(message) {
        Some(span) => match json_member(span, key) {
            Some(v) => json_u64(v),
            None => None,
        },
        None => None,
    }
}

/// The text under a key of a document, or `fallback`.
pub open spec fn text_or_fallback(document: Value, key: Seq<char>, fallback: Seq<char>) -> Seq<
    char,
> {
    match json_member(document, key) {
        Some(v) => match json_str(v) {
            Some(text) => text,
            None => fallback,
        },
        None => fallback,
    }
}

/// The compiler message in a line of the lint's output that gives an
/// issue: the line is JSON, with a `message` that has a `level`.
pub open spec fn lint_message(line: Seq<char>) -> Option<Value> {
    match json_parsed(line) {
        Ok(document) => match json_member(document, "message"@) {
            Some(message) => if json_member(message, "level"@) is Some {
                Some(message)
            } else {
                None
            },
            None => None,
        },
        Err(_) => None,
    }
}

/// Whether an issue is the one that a compiler message gives: the
/// severity by the level; the file and the line of the first span, the
/// line cut to 32 bits; the message, or `Unknown issue`; the code as the
/// rule, or `unknown`; a correctness issue without a suggestion.
pub open spec fn is_lint_issue(issue: Issue, message: Value) -> bool {
    &&& issue.severity == severity_of_level(
        match json_member(message, "level"@) {
            Some(level) => json_str(level),
            None => None,
        },
    )
    &&& issue.category == IssueCategory::Correctness
    &&& issue.file == path_of_text(
        match span_text(message, "file_name"@) {
            Some(name) => name,
            None => Seq::empty(),
        },
    )
    &&& issue.line == (match span_number(message, "line_start"@) {
        Some(n) => Some((n % 0x1_0000_0000) as u32),
        None => None,
    })
    &&& issue.message@ == text_or_fallback(message, "message"@, "Unknown issue"@)
    &&& issue.rule@ == text_or_fallback(message, "code"@, "unknown"@)
    &&& issue.suggestion is None
}

/// Whether the issues are those that the lines give, in order.
pub open spec fn are_lint_issues(issues: Seq<Issue>, lines: Seq<Seq<char>>) -> bool
    decreases lines.len(),
{
    if lines.len() == 0 {
        issues.len() == 0
    } else {
        match lint_message(lines.last()) {
            Some(message) => issues.len() > 0 && is_lint_issue(issues.last(), message)
                && are_lint_issues(issues.drop_last(), lines.drop_last()),
            None => are_lint_issues(issues, lines.drop_last()),
        }
    }
}

/// The first span of a compiler message.
fn read_first_span(message: &Value) -> (r: Option<Value>)
    ensures
        r == first_span(*message),
{
    match member(message, "spans") {
        Some(spans) => match items(spans) {
            Some(list) => if list.len() > 0 {
                Some(list[0].clone())
            } else {
                None
            },
            None => None,
        },
        None => None,
    }
}

/// The text under a key of a document, or `fallback`.
fn read_text_or(document: &Value, key: &str, fallback: &str) -> (text: String)
    ensures
        text@ == text_or_fallback(*document, key@, fallback@),
{
    match member(document, key) {
        Some(v) => match as_text(v) {
            Some(text) => text.to_owned(),
            None => fallback.to_owned(),
        },
        None => fallback.to_owned(),
    }
}

/// The issue that a line of the lint's output gives, if it gives one.
fn parse_lint_line(line: &str) -> (r: Option<Issue>)
    ensures
        match r {
            Some(issue) => lint_message(line@) is Some && is_lint_issue(
                issue,
                lint_message(line@)->0,
            ),
            None => lint_message(line@) is None,
        },
{
    let document = match parse_json(line) {
        Ok(document) => document,
        Err(_) => {
            return None;
        },
    };
    let message = match member(&document, "message") {
        Some(message) => message,
        None => {
            return None;
        },
    };
    let level = match member(message, "level") {
        Some(level) => level,
        None => {
            return None;
        },
    };
    let severity = match as_text(level) {
        Some(text) => if same_text(text, "error") {
            IssueSeverity::Error
        } else if same_text(text, "warning") {
            IssueSeverity::Warning
        } else {
            IssueSeverity::Info
        },
        None => IssueSeverity::Info,
    };
    let span = read_first_span(message);
    let (file, line_number) = match &span {
        Some(span) => {
            let file = match member(span, "file_name") {
                Some(v) => match as_text(v) {
                    Some(name) => path_from_text(name),
                    None => path_from_text(""),
                },
                None => path_from_text(""),
            };
            let line_number = match member(span, "line_start") {
                Some(v) => match as_number(v) {
                    Some(n) => Some((n % 0x1_0000_0000) as u32),
                    None => None,
                },
                None => None,
            };
            (file, line_number)
        },
        None => (path_from_text(""), None),
    };
    proof {
        reveal_strlit("");
        assert(""@ =~= Seq::<char>::empty());
    }
    Some(
        Issue {
            severity,
            category: IssueCategory::Correctness,
            file,
            line: line_number,
            message: read_text_or(message, "message", "Unknown issue"),
            rule: read_text_or(message, "code", "unknown"),
            suggestion: None,
        },
    )
}

/// The issues in the output of the lint: each line that is a JSON
/// document with a `message` that has a `level` gives one.
pub fn parse_lint_output(stdout: &str) -> (issues: Vec<Issue>)
    ensures
        are_lint_issues(issues@, lines_of(stdout@)),
{
    let chars = chars_of(stdout);
    let lines = split_lines(&chars);
    let ghost all = lines_of(stdout@);
    let mut issues: Vec<Issue> = Vec::new();
    let mut i: usize = 0;
    assert(all.take(0) =~= Seq::empty());
    while i < lines.len()
        invariant
            i <= lines@.len(),
            lines@.len() == all.len(),
            forall|j: int| 0 <= j < lines@.len() ==> (#[trigger] lines@[j])@ == all[j],
            are_lint_issues(issues@, all.take(i as int)),
        decreases lines@.len() - i,
    {
        let ghost before = issues@;
        let line = text_of(&lines[i]);
        proof {
            assert(all.take(i + 1).drop_last() =~= all.take(i as int));
            assert(all.take(i + 1).last() == all[i as int]);
        }
        match parse_lint_line(line.as_str()) {
            Some(issue) => {
                issues.push(issue);
                assert(issues@.drop_last() =~= before);
            },
            None => {},
        }
        i = i + 1;
    }
    assert(all.take(lines@.len() as int) =~= all);
    issues
}

/// The number of issues of a severity among the first `count`.
pub open spec fn severity_count(issues: Seq<Issue>, count: nat, severity: IssueSeverity) -> nat
    decreases count,
{
    if count == 0 {
        0
    } else {
        severity_count(issues, (count - 1) as nat, severity) + if issues[count - 1].severity
            == severity {
            1nat
        } else {
            0nat
        }
    }
}

proof fn lemma_severity_count_bounded(issues: Seq<Issue>, count: nat, severity: IssueSeverity)
    ensures
        severity_count(issues, count, severity) <= count,
    decreases count,
{
    if count > 0 {
        lemma_severity_count_bounded(issues, (count - 1) as nat, severity);
    }
}

/// The number of issues of a severity, cut to 32 bits.
pub fn count_severity(issues: &Vec<Issue>, severity: IssueSeverity) -> (n: u32)
    ensures
        n == severity_count(issues@, issues@.len(), severity) % 0x1_0000_0000,
{
    let mut count: usize = 0;
    let mut i: usize = 0;
    while i < issues.len()
        invariant
            i <= issues@.len(),
            count == severity_count(issues@, i as nat, severity),
            count <= i,
        decreases issues@.len() - i,
    {
        if issues[i].severity == severity {
            count = count + 1;
        }
        i = i + 1;
    }
    ((count as u64) % 0x1_0000_0000) as u32
}

/// Whether `result` is the result of the analysis of a Rust project with
/// these issues of the lint, the format looked at or not, and in order or
/// not.
pub open spec fn is_rust_analysis(
    result: CodeAnalysisResult,
    lint_issues: Seq<Issue>,
    format_checked: bool,
    format_in_order: bool,
) -> bool {
    let errors = severity_count(result.issues@, result.issues@.len(), IssueSeverity::Error);
    let warnings = severity_count(result.issues@, result.issues@.len(), IssueSeverity::Warning);
    &&& result.issues@ == (if format_checked && !format_in_order {
        lint_issues.push(result.issues@.last())
    } else {
        lint_issues
    })
    &&& format_checked && !format_in_order ==> is_format_issue(result.issues@.last())
    &&& result.success == (errors == 0)
    &&& result.metrics.total_files == 0
    &&& result.metrics.total_lines == 0
    &&& result.metrics.coverage_percentage is None
    &&& result.metrics.complexity_score is None
    &&& result.metrics.issues_count@ == seq![
        (IssueSeverity::Error, (errors % 0x1_0000_0000) as u32),
        (IssueSeverity::Warning, (warnings % 0x1_0000_0000) as u32),
    ]
    &&& result.suggestions@.len() == 1
    &&& result.issues@.len() == 0 ==> is_suggestion(
        result.suggestions@[0],
        "Code Quality Good"@,
        "No significant issues found in code analysis"@,
        1,
        EffortLevel::Low,
    ) && result.suggestions@[0].files_affected@.len() == 0
    &&& result.issues@.len() > 0 ==> is_suggestion(
        result.suggestions@[0],
        "Address Clippy Warnings"@,
        "Fix the clippy warnings to improve code quality"@,
        3,
        EffortLevel::Medium,
    ) && result.suggestions@[0].files_affected@ == Seq::new(
        result.issues@.len(),
        |i: int| result.issues@[i].file,
    )
    &&& result.execution_time == seconds(0)
}

/// The result of the analysis of a Rust project, from the issues that the
/// lint gave and from the formatter: asked whether the format was to be
/// looked at and whether it was in order. A format that is not in order
/// adds a style issue. The metrics count the errors and the warnings. The
/// analysis succeeds where no issue is an error, and suggests to address
/// the warnings where there is any issue.
pub fn analyze_rust_output(lint_issues: Vec<Issue>, format_checked: bool, format_in_order: bool) -> (result:
    CodeAnalysisResult)
    ensures
        is_rust_analysis(result, lint_issues@, format_checked, format_in_order),
{
    let mut issues = lint_issues;
    if format_checked && !format_in_order {
        issues.push(
            Issue {
                severity: IssueSeverity::Style,
                category: IssueCategory::Style,
                file: path_from_text(""),
                line: None,
                message: "Code formatting issues found".to_owned(),
                rule: "formatting".to_owned(),
                suggestion: Some("Run 'cargo fmt' to fix formatting issues".to_owned()),
            },
        );
    }
    let errors = count_severity(&issues, IssueSeverity::Error);
    let warnings = count_severity(&issues, IssueSeverity::Warning);
    let mut issues_count: Vec<(IssueSeverity, u32)> = Vec::new();
    issues_count.push((IssueSeverity::Error, errors));
    issues_count.push((IssueSeverity::Warning, warnings));
    let mut has_error = false;
    let mut files: Vec<PathBuf> = Vec::new();
    let mut i: usize = 0;
    while i < issues.len()
        invariant
            i <= issues@.len(),
            has_error == (severity_count(issues@, i as nat, IssueSeverity::Error) > 0),
            files@ == Seq::new(i as nat, |k: int| issues@[k].file),
        decreases issues@.len() - i,
    {
        if issues[i].severity == IssueSeverity::Error {
            has_error = true;
        }
        files.push(issues[i].file.clone());
        assert(files@ =~= Seq::new((i + 1) as nat, |k: int| issues@[k].file));
        i = i + 1;
    }
    let mut suggestions: Vec<Suggestion> = Vec::new();
    if issues.len() == 0 {
        suggestions.push(
            Suggestion {
                title: "Code Quality Good".to_owned(),
                description: "No significant issues found in code analysis".to_owned(),
                priority: 1,
                effort: EffortLevel::Low,
                files_affected: Vec::new(),
            },
        );
    } else {
        suggestions.push(
            Suggestion {
                title: "Address Clippy Warnings".to_owned(),
                description: "Fix the clippy warnings to improve code quality".to_owned(),
                priority: 3,
                effort: EffortLevel::Medium,
                files_affected: files,
            },
        );
    }
    assert(issues_count@ =~= seq![(IssueSeverity::Error, errors), (IssueSeverity::Warning, warnings)]);
    CodeAnalysisResult {
        success: !has_error,
        issues,
        metrics: AnalysisMetrics {
            total_files: 0,
            total_lines: 0,
            issues_count,
            coverage_percentage: None,
            complexity_score: None,
        },
        suggestions,
        execution_time: Duration::from_secs(0),
    }
}

/// The result of the analysis of a Rust project, from how the lint ran and
/// what it wrote, and from the formatter. The output of a lint that did
/// not succeed is not read. The format is looked at only in an analysis of
/// the format.
pub fn analyze_rust_project(
    lint_succeeded: bool,
    lint_stdout: &str,
    analysis_type: AnalysisType,
    format_in_order: bool,
) -> (result: CodeAnalysisResult)
    ensures
        ({
            let format_checked = analysis_type == AnalysisType::Format;
            exists|lint_issues: Seq<Issue>| #[trigger]
                is_rust_analysis(result, lint_issues, format_checked, format_in_order) && (
                if lint_succeeded {
                    are_lint_issues(lint_issues, lines_of(lint_stdout@))
                } else {
                    lint_issues.len() == 0
                })
        }),
{
    let lint_issues = if lint_succeeded {
        parse_lint_output(lint_stdout)
    } else {
        Vec::new()
    };
    let ghost found = lint_issues@;
    let result = analyze_rust_output(
        lint_issues,
        analysis_type == AnalysisType::Format,
        format_in_order,
    );
    assert(is_rust_analysis(result, found, analysis_type == AnalysisType::Format, format_in_order));
    result
}

/// Whether an issue is the one that a format out of order gives.
pub open spec fn is_format_issue(issue: Issue) -> bool {
    &&& issue.severity == IssueSeverity::Style
    &&& issue.category == IssueCategory::Style
    &&& issue.file == path_of_text(""@)
    &&& issue.line is None
    &&& issue.message@ == "Code formatting issues found"@
    &&& issue.rule@ == "formatting"@
    &&& issue.suggestion matches Some(s) && s@ == "Run 'cargo fmt' to fix formatting issues"@
}

/// Whether a suggestion has this title, this description, this priority
/// and this effort.
pub open spec fn is_suggestion(
    suggestion: Suggestion,
    title: Seq<char>,
    description: Seq<char>,
    priority: u8,
    effort: EffortLevel,
) -> bool {
    &&& suggestion.title@ == title
    &&& suggestion.description@ == description
    &&& suggestion.priority == priority
    &&& suggestion.effort == effort
}

/// Whether `result` is the result of an analysis that is not made yet for
/// a language: a success without issues and without numbers, with one
/// suggestion that says so.
pub open spec fn is_pending_analysis(result: CodeAnalysisResult, language: Seq<char>) -> bool {
    &&& result.success
    &&& result.issues@.len() == 0
    &&& result.metrics.total_files == 0
    &&& result.metrics.total_lines == 0
    &&& result.metrics.issues_count@.len() == 0
    &&& result.metrics.coverage_percentage is None
    &&& result.metrics.complexity_score is None
    &&& result.suggestions@.len() == 1
    &&& is_suggestion(
        result.suggestions@[0],
        language + " Analysis"@,
        language + " code analysis not fully implemented"@,
        1,
        EffortLevel::Low,
    )
    &&& result.suggestions@[0].files_affected@.len() == 0
    &&& result.execution_time == seconds(0)
}

/// The result of an analysis that is not made yet: a success without
/// issues, with one suggestion that says so for the language.
pub fn pending_analysis(language: &str) -> (result: CodeAnalysisResult)
    ensures
        is_pending_analysis(result, language@),
{
    let mut suggestions: Vec<Suggestion> = Vec::new();
    suggestions.push(
        Suggestion {
            title: language.to_owned().concat(" Analysis"),
            description: language.to_owned().concat(" code analysis not fully implemented"),
            priority: 1,
            effort: EffortLevel::Low,
            files_affected: Vec::new(),
        },
    );
    CodeAnalysisResult {
        success: true,
        issues: Vec::new(),
        metrics: AnalysisMetrics {
            total_files: 0,
            total_lines: 0,
            issues_count: Vec::new(),
            coverage_percentage: None,
            complexity_score: None,
        },
        suggestions,
        execution_time: Duration::from_secs(0),
    }
}

/// The analysis of a Node.js project, which is not made yet.
pub fn analyze_nodejs_project() -> (result: CodeAnalysisResult)
    ensures
        is_pending_analysis(result, "Node.js"@),
{
    pending_analysis("Node.js")
}

/// The analysis of a Python project, which is not made yet.
pub fn analyze_python_project() -> (result: CodeAnalysisResult)
    ensures
        is_pending_analysis(result, "Python"@),
{
    pending_analysis("Python")
}

/// The analysis of a Java project, which is not made yet.
pub fn analyze_java_project() -> (result: CodeAnalysisResult)
    ensures
        is_pending_analysis(result, "Java"@),
{
    pending_analysis("Java")
}

/// The analysis of a Go project, which is not made yet.
pub fn analyze_go_project() -> (result: CodeAnalysisResult)
    ensures
        is_pending_analysis(result, "Go"@),
{
    pending_analysis("Go")
}

} // verus!
