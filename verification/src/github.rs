//! The GitHub integration agent: what it is asked and what it reports.

use vstd::prelude::*;
use vstd::string::StringExecFns;
use std::path::PathBuf;
use std::time::Duration;
use crate::agents::CodeAnalysisResult;
use crate::agents::EffortLevel;
use crate::agents::Issue;
use crate::agents::IssueSeverity;
use crate::agents::Suggestion;
use crate::json::items;
use crate::json::json_items;
use crate::json::json_parsed;
use crate::json::json_text;
use crate::json::parse_json;
use crate::json::to_text;
use crate::model::AgentCapability;
use crate::model::AgentError;
use crate::model::ProjectType;
use crate::outside::path_display;
use crate::outside::path_shown;
use crate::outside::seconds;
use crate::registry::AgentProfile;
use crate::text::chars_of;
use crate::text::contains_text;
use crate::text::decimal_text;
use crate::text::find_last_char;
use crate::text::find_text;
use crate::text::last_position;
use crate::text::lines_of;
use crate::text::parse_u32;
use crate::text::push_decimal;
use crate::text::split_lines;
use crate::text::u32_of_text;

verus! {

/// Why a GitHub action failed.
#[derive(Debug, Clone)]
pub enum GitHubIntegrationError {
    GitHubCliNotFound,
    CommandFailed(String),
    ParseError(String),
    AuthenticationError(String),
    IoError(String),
}

/// The agent that talks to GitHub.
pub struct GitHubIntegrationAgent {
    name: String,
    version: String,
    description: String,
    supported_types: Vec<ProjectType>,
    capabilities: Vec<AgentCapability>,
}

impl GitHubIntegrationAgent {
    pub closed spec fn name_text(&self) -> Seq<char> {
        self.name@
    }

    pub closed spec fn version_text(&self) -> Seq<char> {
        self.version@
    }

    pub closed spec fn description_text(&self) -> Seq<char> {
        self.description@
    }

    pub closed spec fn supported(&self) -> Seq<ProjectType> {
        self.supported_types@
    }

    pub closed spec fn abilities(&self) -> Seq<AgentCapability> {
        self.capabilities@
    }

    /// The agent as it is registered: it works with any project.
    pub fn new() -> (agent: Self)
        ensures
            agent.name_text() == "github_integration"@,
            agent.version_text() == "1.0.0"@,
            agent.description_text()
                == "Integrates with GitHub for PR reviews and issue management"@,
            agent.supported() == seq![ProjectType::Generic],
            agent.abilities() == seq![
                AgentCapability::CopilotIntegration,
                AgentCapability::ReportGeneration,
            ],
    {
        let mut supported_types: Vec<ProjectType> = Vec::new();
        supported_types.push(ProjectType::Generic);
        let mut capabilities: Vec<AgentCapability> = Vec::new();
        capabilities.push(AgentCapability::CopilotIntegration);
        capabilities.push(AgentCapability::ReportGeneration);
        GitHubIntegrationAgent {
            name: "github_integration".to_owned(),
            version: "1.0.0".to_owned(),
            description: "Integrates with GitHub for PR reviews and issue management".to_owned(),
            supported_types,
            capabilities,
        }
    }

    pub fn name(&self) -> (r: &str)
        ensures
            r@ == self.name_text(),
    {
        self.name.as_str()
    }

    pub fn version(&self) -> (r: &str)
        ensures
            r@ == self.version_text(),
    {
        self.version.as_str()
    }

    pub fn description(&self) -> (r: &str)
        ensures
            r@ == self.description_text(),
    {
        self.description.as_str()
    }

    pub fn supported_project_types(&self) -> (r: &[ProjectType])
        ensures
            r@ == self.supported(),
    {
        self.supported_types.as_slice()
    }

    pub fn capabilities(&self) -> (r: &[AgentCapability])
        ensures
            r@ == self.abilities(),
    {
        self.capabilities.as_slice()
    }

    /// What the registry is to know of the agent.
    pub fn profile(&self) -> (profile: AgentProfile)
        ensures
            profile.name@ == self.name_text(),
            profile.version@ == self.version_text(),
            profile.description@ == self.description_text(),
            profile.supported_types@ == self.supported(),
            profile.capabilities@ == self.abilities(),
    {
        let mut supported_types: Vec<ProjectType> = Vec::new();
        let mut i: usize = 0;
        while i < self.supported_types.len()
            invariant
                i <= self.supported_types@.len(),
                supported_types@ == self.supported_types@.take(i as int),
            decreases self.supported_types@.len() - i,
        {
            supported_types.push(self.supported_types[i]);
            assert(self.supported_types@.take(i + 1) =~= self.supported_types@.take(i as int).push(
                self.supported_types@[i as int],
            ));
            i = i + 1;
        }
        assert(self.supported_types@.take(self.supported_types@.len() as int)
            =~= self.supported_types@);
        let mut capabilities: Vec<AgentCapability> = Vec::new();
        let mut k: usize = 0;
        while k < self.capabilities.len()
            invariant
                k <= self.capabilities@.len(),
                capabilities@ == self.capabilities@.take(k as int),
            decreases self.capabilities@.len() - k,
        {
            capabilities.push(self.capabilities[k]);
            assert(self.capabilities@.take(k + 1) =~= self.capabilities@.take(k as int).push(
                self.capabilities@[k as int],
            ));
            k = k + 1;
        }
        assert(self.capabilities@.take(self.capabilities@.len() as int) =~= self.capabilities@);
        AgentProfile {
            name: self.name.clone(),
            version: self.version.clone(),
            description: self.description.clone(),
            supported_types,
            capabilities,
        }
    }
}

/// What the agent can do on GitHub.
#[derive(Debug, Clone, Copy, PartialEq, Eq, Structural)]
pub enum GitHubAction {
    CreatePRReview,
    PostPRComment,
    TriggerCopilotReview,
    CreateIssue,
    UpdateIssue,
    GetPRInfo,
    ListIssues,
}

/// How a GitHub action is to be carried out.
#[derive(Debug, Clone)]
pub struct GitHubOptions {
    pub repository: Option<String>,
    pub owner: Option<String>,
    pub dry_run: bool,
    pub include_copilot: bool,
    pub comment_template: Option<String>,
    pub auto_merge: bool,
}

impl Default for GitHubOptions {
    fn default() -> (options: Self)
        ensures
            options.repository is None,
            options.owner is None,
            !options.dry_run,
            options.include_copilot,
            options.comment_template is None,
            !options.auto_merge,
    {
        GitHubOptions {
            repository: None,
            owner: None,
            dry_run: false,
            include_copilot: true,
            comment_template: None,
            auto_merge: false,
        }
    }
}

/// What a GitHub action came to.
#[derive(Debug, Clone)]
pub struct GitHubIntegrationResult {
    pub success: bool,
    pub action: GitHubAction,
    pub pr_number: Option<u32>,
    pub issue_number: Option<u32>,
    pub comment_url: Option<String>,
    pub review_url: Option<String>,
    pub copilot_triggered: bool,
    pub execution_time: Duration,
    pub message: String,
}

/// A pull request as GitHub describes it.
#[derive(Debug, Clone)]
pub struct PRInfo {
    pub number: u32,
    pub title: String,
    pub body: String,
    pub state: String,
    pub user: String,
    pub head_ref: String,
    pub base_ref: String,
    pub mergeable: bool,
    pub draft: bool,
}

impl AgentError {
    /// The error of the engine that stands for an error of the GitHub
    /// integration: the text of its kind and its own text.
    pub fn from_github(err: GitHubIntegrationError) -> (e: AgentError)
        ensures
            match err {
                GitHubIntegrationError::GitHubCliNotFound => e
                    matches AgentError::GitHubIntegration(m) && m@ == "GitHub CLI not found"@,
                GitHubIntegrationError::CommandFailed(msg) => e
                    matches AgentError::GitHubIntegration(m) && m@ == "Command failed: "@ + msg@,
                GitHubIntegrationError::ParseError(msg) => e matches AgentError::GitHubIntegration(
                    m,
                ) && m@ == "Parse error: "@ + msg@,
                GitHubIntegrationError::AuthenticationError(msg) => e
                    matches AgentError::GitHubIntegration(m) && m@ == "Authentication error: "@
                    + msg@,
                GitHubIntegrationError::IoError(msg) => e == AgentError::Io(msg),
            },
    {
        match err {
            GitHubIntegrationError::GitHubCliNotFound => AgentError::GitHubIntegration(
                "GitHub CLI not found".to_owned(),
            ),
            GitHubIntegrationError::CommandFailed(msg) => AgentError::GitHubIntegration(
                "Command failed: ".to_owned().concat(msg.as_str()),
            ),
            GitHubIntegrationError::ParseError(msg) => AgentError::GitHubIntegration(
                "Parse error: ".to_owned().concat(msg.as_str()),
            ),
            GitHubIntegrationError::AuthenticationError(msg) => AgentError::GitHubIntegration(
                "Authentication error: ".to_owned().concat(msg.as_str()),
            ),
            GitHubIntegrationError::IoError(msg) => AgentError::Io(msg),
        }
    }
}

/// What the agent is asked to do on GitHub.
#[derive(Debug, Clone)]
pub struct GitHubIntegrationInput {
    pub project_path: PathBuf,
    pub action: GitHubAction,
    pub analysis_results: Option<CodeAnalysisResult>,
    pub pr_number: Option<u32>,
    pub options: GitHubOptions,
}

/// The mark of a severity: a red, yellow, blue or purple circle.
pub open spec fn severity_mark(severity: IssueSeverity) -> Seq<char> {
    match severity {
        IssueSeverity::Error => "\u{1F534}"@,
        IssueSeverity::Warning => "\u{1F7E1}"@,
        IssueSeverity::Info => "\u{1F535}"@,
        IssueSeverity::Style => "\u{1F7E3}"@,
    }
}

/// The mark of a priority: red up to three, yellow up to six, else blue.
/// The priority zero is blue.
pub open spec fn priority_mark(priority: u8) -> Seq<char> {
    if 1 <= priority <= 3 {
        "\u{1F534}"@
    } else if 4 <= priority <= 6 {
        "\u{1F7E1}"@
    } else {
        "\u{1F535}"@
    }
}

/// The name of an effort.
pub open spec fn effort_name(effort: EffortLevel) -> Seq<char> {
    match effort {
        EffortLevel::Low => "Low"@,
        EffortLevel::Medium => "Medium"@,
        EffortLevel::High => "High"@,
    }
}

/// One line for each count: a dash, the mark of the severity and the
/// count.
pub open spec fn count_lines(counts: Seq<(IssueSeverity, u32)>) -> Seq<char>
    decreases counts.len(),
{
    if counts.len() == 0 {
        Seq::empty()
    } else {
        count_lines(counts.drop_last()) + "- "@ + severity_mark(counts.last().0) + ": "@
            + decimal_text(counts.last().1 as nat) + "\n"@
    }
}

/// The line of an issue: its number, the mark of its severity, its file
/// and line, zero where it has no line, and its message.
pub open spec fn issue_line(issue: Issue, number: nat) -> Seq<char> {
    decimal_text(number) + ". "@ + severity_mark(issue.severity) + " "@ + path_shown(issue.file)
        + ":"@ + decimal_text(
        match issue.line {
            Some(line) => line as nat,
            None => 0nat,
        },
    ) + " - "@ + issue.message@ + "\n"@
}

/// The lines of the first `count` issues, numbered from one.
pub open spec fn issue_lines(issues: Seq<Issue>, count: nat) -> Seq<char>
    decreases count,
{
    if count == 0 {
        Seq::empty()
    } else {
        issue_lines(issues, (count - 1) as nat) + issue_line(issues[count - 1], count)
    }
}

/// The lines of the first `count` issues, each followed by its suggestion
/// where it has one.
pub open spec fn detailed_issue_lines(issues: Seq<Issue>, count: nat) -> Seq<char>
    decreases count,
{
    if count == 0 {
        Seq::empty()
    } else {
        detailed_issue_lines(issues, (count - 1) as nat) + issue_line(issues[count - 1], count)
            + match issues[count - 1].suggestion {
            Some(suggestion) => "   \u{1F4A1} "@ + suggestion@ + "\n"@,
            None => Seq::empty(),
        }
    }
}

/// The first line of a suggestion: the mark of its priority with its
/// title, priority and effort.
pub open spec fn suggestion_heading(s: Suggestion) -> Seq<char> {
    priority_mark(s.priority) + " **"@ + s.title@ + "** (Priority: "@ + decimal_text(
        s.priority as nat,
    ) + ", Effort: "@ + effort_name(s.effort) + ")\n"@
}

/// Two lines for each suggestion: its heading and its description.
pub open spec fn suggestion_lines(suggestions: Seq<Suggestion>) -> Seq<char>
    decreases suggestions.len(),
{
    if suggestions.len() == 0 {
        Seq::empty()
    } else {
        suggestion_lines(suggestions.drop_last()) + suggestion_heading(suggestions.last())
            + "   "@ + suggestions.last().description@ + "\n"@
    }
}

/// The lesser of a number and five.
pub open spec fn at_most_five(n: nat) -> nat {
    if n < 5 {
        n
    } else {
        5
    }
}

/// The comment on a pull request for the results of an analysis: how it
/// went, the counts, the first five issues, the recommendations and a
/// tip.
pub open spec fn review_comment(results: CodeAnalysisResult) -> Seq<char> {
    "## \u{1F916} Code Review + Copilot Analysis\n\n"@ + (if results.success {
        "\u{2705} **Analysis completed successfully**\n\n"@
    } else {
        "\u{274C} **Analysis found issues**\n\n"@
    }) + "### Summary\n"@ + "- Total issues found: "@ + decimal_text(results.issues@.len())
        + "\n"@ + count_lines(results.metrics.issues_count@) + (if results.issues@.len() > 0 {
        "\n### Key Issues\n"@ + issue_lines(results.issues@, at_most_five(results.issues@.len()))
    } else {
        Seq::empty()
    }) + (if results.suggestions@.len() > 0 {
        "\n### Recommendations\n"@ + suggestion_lines(results.suggestions@)
    } else {
        Seq::empty()
    }) + "\n---\n"@
        + "\u{1F4A1} **Tip**: Use `@copilot` in a comment to get AI-powered suggestions for specific code changes.\n"@
}

/// The comment where there are no results.
pub open spec fn empty_review_comment() -> Seq<char> {
    "\u{1F916} **Code Review Analysis**\n\nNo analysis results available. Please run code analysis first."@
}

/// The body of an issue for the results of an analysis: how it went, the
/// counts, and all issues with their suggestions.
pub open spec fn issue_body(results: CodeAnalysisResult) -> Seq<char> {
    "## \u{1F916} Automated Code Analysis Report\n\n"@ + (if results.success {
        "\u{2705} **Analysis completed successfully**\n\n"@
    } else {
        "\u{274C} **Analysis found critical issues**\n\n"@
    }) + "### Issue Breakdown\n"@ + count_lines(results.metrics.issues_count@) + (
    if results.issues@.len() > 0 {
        "\n### All Issues\n"@ + detailed_issue_lines(results.issues@, results.issues@.len())
    } else {
        Seq::empty()
    })
}

/// The body of an issue where there are no results.
pub open spec fn empty_issue_body() -> Seq<char> {
    "\u{1F916} **Automated Code Analysis**\n\nNo analysis results available."@
}

/// The mark of a severity.
fn mark_of(severity: IssueSeverity) -> (mark: &'static str)
    ensures
        mark@ == severity_mark(severity),
{
    match severity {
        IssueSeverity::Error => "\u{1F534}",
        IssueSeverity::Warning => "\u{1F7E1}",
        IssueSeverity::Info => "\u{1F535}",
        IssueSeverity::Style => "\u{1F7E3}",
    }
}

/// Appends a line for each count.
fn push_count_lines(out: &mut String, counts: &Vec<(IssueSeverity, u32)>)
    ensures
        final(out)@ == old(out)@ + count_lines(counts@),
{
    let ghost base = out@;
    let mut i: usize = 0;
    assert(counts@.take(0) =~= Seq::empty());
    assert(base + Seq::<char>::empty() =~= base);
    while i < counts.len()
        invariant
            i <= counts@.len(),
            out@ == base + count_lines(counts@.take(i as int)),
        decreases counts@.len() - i,
    {
        out.append("- ");
        out.append(mark_of(counts[i].0));
        out.append(": ");
        push_decimal(out, counts[i].1 as u64);
        out.append("\n");
        proof {
            let next = counts@.take(i + 1);
            assert(next.drop_last() =~= counts@.take(i as int));
            assert(next.last() == counts@[i as int]);
            assert(out@ =~= base + count_lines(next));
        }
        i = i + 1;
    }
    assert(counts@.take(counts@.len() as int) =~= counts@);
}

/// Appends the line of an issue.
fn push_issue_line(out: &mut String, issue: &Issue, number: usize)
    ensures
        final(out)@ == old(out)@ + issue_line(*issue, number as nat),
{
    let ghost base = out@;
    push_decimal(out, number as u64);
    out.append(". ");
    out.append(mark_of(issue.severity));
    out.append(" ");
    out.append(path_display(&issue.file).as_str());
    out.append(":");
    let line: u32 = match issue.line {
        Some(line) => line,
        None => 0,
    };
    push_decimal(out, line as u64);
    out.append(" - ");
    out.append(issue.message.as_str());
    out.append("\n");
    assert(out@ =~= base + issue_line(*issue, number as nat));
}

/// Appends the heading of a suggestion.
fn push_suggestion_heading(out: &mut String, suggestion: &Suggestion)
    ensures
        final(out)@ == old(out)@ + suggestion_heading(*suggestion),
{
    let ghost base = out@;
    let mark = if 1 <= suggestion.priority && suggestion.priority <= 3 {
        "\u{1F534}"
    } else if 4 <= suggestion.priority && suggestion.priority <= 6 {
        "\u{1F7E1}"
    } else {
        "\u{1F535}"
    };
    out.append(mark);
    out.append(" **");
    out.append(suggestion.title.as_str());
    out.append("** (Priority: ");
    push_decimal(out, suggestion.priority as u64);
    out.append(", Effort: ");
    out.append(
        match suggestion.effort {
            EffortLevel::Low => "Low",
            EffortLevel::Medium => "Medium",
            EffortLevel::High => "High",
        },
    );
    out.append(")\n");
    assert(out@ =~= base + suggestion_heading(*suggestion));
}

/// Writes the comment on a pull request for the results of an analysis.
pub fn generate_review_comment(analysis_results: Option<&CodeAnalysisResult>) -> (comment: String)
    ensures
        comment@ == match analysis_results {
            Some(results) => review_comment(*results),
            None => empty_review_comment(),
        },
{
    let results = match analysis_results {
        Some(results) => results,
        None => {
            return "\u{1F916} **Code Review Analysis**\n\nNo analysis results available. Please run code analysis first.".to_owned();
        },
    };
    let mut comment = "## \u{1F916} Code Review + Copilot Analysis\n\n".to_owned();
    if results.success {
        comment.append("\u{2705} **Analysis completed successfully**\n\n");
    } else {
        comment.append("\u{274C} **Analysis found issues**\n\n");
    }
    comment.append("### Summary\n");
    comment.append("- Total issues found: ");
    push_decimal(&mut comment, results.issues.len() as u64);
    comment.append("\n");
    push_count_lines(&mut comment, &results.metrics.issues_count);
    let ghost head = comment@;
    if results.issues.len() > 0 {
        comment.append("\n### Key Issues\n");
        let ghost start = comment@;
        let shown: usize = if results.issues.len() < 5 {
            results.issues.len()
        } else {
            5
        };
        let mut i: usize = 0;
        assert(start + Seq::<char>::empty() =~= start);
        while i < shown
            invariant
                i <= shown <= results.issues@.len(),
                comment@ == start + issue_lines(results.issues@, i as nat),
            decreases shown - i,
        {
            push_issue_line(&mut comment, &results.issues[i], i + 1);
            assert(comment@ =~= start + issue_lines(results.issues@, (i + 1) as nat));
            i = i + 1;
        }
        assert(comment@ =~= head + ("\n### Key Issues\n"@ + issue_lines(
            results.issues@,
            at_most_five(results.issues@.len()),
        )));
    } else {
        assert(comment@ =~= head + Seq::<char>::empty());
    }
    let ghost middle = comment@;
    if results.suggestions.len() > 0 {
        comment.append("\n### Recommendations\n");
        let ghost start = comment@;
        let mut i: usize = 0;
        assert(results.suggestions@.take(0) =~= Seq::empty());
        assert(start + Seq::<char>::empty() =~= start);
        while i < results.suggestions.len()
            invariant
                i <= results.suggestions@.len(),
                comment@ == start + suggestion_lines(results.suggestions@.take(i as int)),
            decreases results.suggestions@.len() - i,
        {
            let suggestion = &results.suggestions[i];
            push_suggestion_heading(&mut comment, suggestion);
            comment.append("   ");
            comment.append(suggestion.description.as_str());
            comment.append("\n");
            proof {
                let next = results.suggestions@.take(i + 1);
                assert(next.drop_last() =~= results.suggestions@.take(i as int));
                assert(next.last() == results.suggestions@[i as int]);
                assert(comment@ =~= start + suggestion_lines(next));
            }
            i = i + 1;
        }
        assert(results.suggestions@.take(results.suggestions@.len() as int)
            =~= results.suggestions@);
        assert(comment@ =~= middle + ("\n### Recommendations\n"@ + suggestion_lines(
            results.suggestions@,
        )));
    } else {
        assert(comment@ =~= middle + Seq::<char>::empty());
    }
    comment.append("\n---\n");
    comment.append(
        "\u{1F4A1} **Tip**: Use `@copilot` in a comment to get AI-powered suggestions for specific code changes.\n",
    );
    assert(comment@ =~= review_comment(*results));
    comment
}

/// Writes the body of an issue for the results of an analysis.
pub fn generate_issue_body(analysis_results: Option<&CodeAnalysisResult>) -> (body: String)
    ensures
        body@ == match analysis_results {
            Some(results) => issue_body(*results),
            None => empty_issue_body(),
        },
{
    let results = match analysis_results {
        Some(results) => results,
        None => {
            return "\u{1F916} **Automated Code Analysis**\n\nNo analysis results available.".to_owned();
        },
    };
    let mut body = "## \u{1F916} Automated Code Analysis Report\n\n".to_owned();
    if results.success {
        body.append("\u{2705} **Analysis completed successfully**\n\n");
    } else {
        body.append("\u{274C} **Analysis found critical issues**\n\n");
    }
    body.append("### Issue Breakdown\n");
    push_count_lines(&mut body, &results.metrics.issues_count);
    let ghost head = body@;
    if results.issues.len() > 0 {
        body.append("\n### All Issues\n");
        let ghost start = body@;
        let mut i: usize = 0;
        assert(start + Seq::<char>::empty() =~= start);
        while i < results.issues.len()
            invariant
                i <= results.issues@.len(),
                body@ == start + detailed_issue_lines(results.issues@, i as nat),
            decreases results.issues@.len() - i,
        {
            let ghost before = body@;
            push_issue_line(&mut body, &results.issues[i], i + 1);
            match &results.issues[i].suggestion {
                Some(suggestion) => {
                    body.append("   \u{1F4A1} ");
                    body.append(suggestion.as_str());
                    body.append("\n");
                },
                None => {},
            }
            assert(body@ =~= start + detailed_issue_lines(results.issues@, (i + 1) as nat));
            i = i + 1;
        }
        assert(body@ =~= head + ("\n### All Issues\n"@ + detailed_issue_lines(
            results.issues@,
            results.issues@.len(),
        )));
    } else {
        assert(body@ =~= head + Seq::<char>::empty());
    }
    body
}

/// How a command ended.
#[derive(Debug, Clone)]
pub struct CommandOutcome {
    pub success: bool,
    pub stdout: String,
    pub stderr: String,
}

/// What is to be done for an action.
#[derive(Debug, Clone)]
pub enum GitHubPlan {
    /// Nothing is to be run: this is the result.
    Finished(GitHubIntegrationResult),
    /// The GitHub command line tool is to be run with these arguments, in
    /// the project directory.
    Run(Vec<String>),
}

/// Whether a result has these parts, and no time taken.
pub open spec fn is_result(
    r: GitHubIntegrationResult,
    action: GitHubAction,
    pr_number: Option<u32>,
    issue_number: Option<u32>,
    comment_url: Option<Seq<char>>,
    review_url: Option<Seq<char>>,
    copilot_triggered: bool,
    message: Seq<char>,
) -> bool {
    &&& r.success
    &&& r.action == action
    &&& r.pr_number == pr_number
    &&& r.issue_number == issue_number
    &&& crate::project_detector::text_in(r.comment_url) == comment_url
    &&& crate::project_detector::text_in(r.review_url) == review_url
    &&& r.copilot_triggered == copilot_triggered
    &&& r.execution_time == seconds(0)
    &&& r.message@ == message
}

/// The address of a pull request, as the results give it.
pub open spec fn pull_url(pr_number: u32) -> Seq<char> {
    "https://github.com/owner/repo/pull/"@ + decimal_text(pr_number as nat)
}

/// The comment that asks for a review.
pub open spec fn copilot_request() -> Seq<char> {
    "@copilot please review this pull request"@
}

/// The fields of a pull request that are asked for.
pub open spec fn pr_fields() -> Seq<char> {
    "title,body,state,author,headRefName,baseRefName,mergeable,draft"@
}

/// The comment that is posted on a pull request: the template where one
/// is given, else the comment for the results.
pub open spec fn posted_comment(input: GitHubIntegrationInput) -> Seq<char> {
    match input.options.comment_template {
        Some(template) => template@,
        None => match input.analysis_results {
            Some(results) => review_comment(results),
            None => empty_review_comment(),
        },
    }
}

/// The arguments that name the repository, where the options name one.
pub open spec fn repository_arguments(options: GitHubOptions) -> Seq<Seq<char>> {
    match options.repository {
        Some(repository) => seq!["--repo"@, repository@],
        None => Seq::empty(),
    }
}

/// The text of the error for an action that needs a pull request number
/// and has none.
pub open spec fn missing_pr_message(action: GitHubAction) -> Seq<char> {
    match action {
        GitHubAction::CreatePRReview => "PR number is required for review"@,
        GitHubAction::PostPRComment => "PR number is required for comment"@,
        GitHubAction::TriggerCopilotReview => "PR number is required for Copilot review"@,
        _ => "PR number is required"@,
    }
}

/// Whether an action needs the number of a pull request.
pub open spec fn needs_pr_number(action: GitHubAction) -> bool {
    action == GitHubAction::CreatePRReview || action == GitHubAction::PostPRComment || action
        == GitHubAction::TriggerCopilotReview || action == GitHubAction::GetPRInfo
}

/// Whether an action does nothing but report when it is run dry.
pub open spec fn heeds_dry_run(action: GitHubAction) -> bool {
    action == GitHubAction::CreatePRReview || action == GitHubAction::PostPRComment || action
        == GitHubAction::TriggerCopilotReview || action == GitHubAction::CreateIssue
}

/// The arguments of the command for an action, before those that name
/// the repository.
pub open spec fn action_arguments(input: GitHubIntegrationInput) -> Seq<Seq<char>> {
    let number = decimal_text(
        match input.pr_number {
            Some(n) => n as nat,
            None => 0nat,
        },
    );
    match input.action {
        GitHubAction::CreatePRReview => seq!["pr"@, "review"@, number, "--comment"@],
        GitHubAction::PostPRComment => seq![
            "pr"@,
            "comment"@,
            number,
            "--body"@,
            posted_comment(input),
        ],
        GitHubAction::TriggerCopilotReview => seq![
            "pr"@,
            "comment"@,
            number,
            "--body"@,
            copilot_request(),
        ],
        GitHubAction::CreateIssue => seq![
            "issue"@,
            "create"@,
            "--title"@,
            "Automated Code Analysis Results"@,
            "--body"@,
            match input.analysis_results {
                Some(results) => issue_body(results),
                None => empty_issue_body(),
            },
        ],
        GitHubAction::GetPRInfo => seq!["pr"@, "view"@, number, "--json"@, pr_fields()],
        GitHubAction::ListIssues => seq!["issue"@, "list"@, "--json"@, "number,title,state"@],
        GitHubAction::UpdateIssue => Seq::empty(),
    }
}

/// Whether `r` is what an action reports when it is run dry.
pub open spec fn is_dry_result(r: GitHubIntegrationResult, input: GitHubIntegrationInput) -> bool {
    match input.action {
        GitHubAction::CreatePRReview => is_result(
            r,
            input.action,
            input.pr_number,
            None,
            None,
            Some(pull_url(input.pr_number->0)),
            false,
            "Dry run: PR review would be created"@,
        ),
        GitHubAction::PostPRComment => is_result(
            r,
            input.action,
            input.pr_number,
            None,
            Some(pull_url(input.pr_number->0)),
            None,
            false,
            "Dry run: Comment would be posted: "@ + posted_comment(input),
        ),
        GitHubAction::TriggerCopilotReview => is_result(
            r,
            input.action,
            input.pr_number,
            None,
            None,
            None,
            true,
            "Dry run: Copilot review would be triggered"@,
        ),
        _ => is_result(
            r,
            input.action,
            None,
            Some(1),
            None,
            None,
            false,
            "Dry run: Issue would be created"@,
        ),
    }
}

/// A result without a time taken.
fn make_result(
    action: GitHubAction,
    pr_number: Option<u32>,
    issue_number: Option<u32>,
    comment_url: Option<String>,
    review_url: Option<String>,
    copilot_triggered: bool,
    message: String,
) -> (r: GitHubIntegrationResult)
    ensures
        is_result(
            r,
            action,
            pr_number,
            issue_number,
            crate::project_detector::text_in(comment_url),
            crate::project_detector::text_in(review_url),
            copilot_triggered,
            message@,
        ),
{
    GitHubIntegrationResult {
        success: true,
        action,
        pr_number,
        issue_number,
        comment_url,
        review_url,
        copilot_triggered,
        execution_time: Duration::from_secs(0),
        message,
    }
}

/// The address of a pull request.
fn pull_address(pr_number: u32) -> (url: String)
    ensures
        url@ == pull_url(pr_number),
{
    let mut url = "https://github.com/owner/repo/pull/".to_owned();
    push_decimal(&mut url, pr_number as u64);
    url
}

/// The texts of a vector of texts.
pub open spec fn arguments_view(arguments: Seq<String>) -> Seq<Seq<char>> {
    Seq::new(arguments.len(), |i: int| arguments[i]@)
}

/// The comment that is posted on a pull request.
fn comment_to_post(input: &GitHubIntegrationInput) -> (comment: String)
    ensures
        comment@ == posted_comment(*input),
{
    match &input.options.comment_template {
        Some(template) => template.clone(),
        None => generate_review_comment(input.analysis_results.as_ref()),
    }
}

/// Decides what is to be done for an action. An action that needs the
/// number of a pull request and has none is refused. An action that is
/// run dry is finished at once with its report; so is the update of an
/// issue, which is not made yet. Any other action gives the arguments of
/// the command to run.
pub fn plan_action(input: &GitHubIntegrationInput) -> (r: Result<GitHubPlan, AgentError>)
    ensures
        needs_pr_number(input.action) && input.pr_number is None ==> (r matches Err(
            AgentError::Other(m),
        ) && m@ == missing_pr_message(input.action)),
        !(needs_pr_number(input.action) && input.pr_number is None) ==> (
        if input.action == GitHubAction::UpdateIssue {
            r matches Ok(GitHubPlan::Finished(result)) && is_result(
                result,
                GitHubAction::UpdateIssue,
                None,
                Some(1),
                None,
                None,
                false,
                "Issue update not implemented"@,
            )
        } else if heeds_dry_run(input.action) && input.options.dry_run {
            r matches Ok(GitHubPlan::Finished(result)) && is_dry_result(result, *input)
        } else {
            r matches Ok(GitHubPlan::Run(arguments)) && arguments_view(arguments@)
                == action_arguments(*input) + repository_arguments(input.options)
        }),
{
    let pr_number: u32 = match input.action {
        GitHubAction::CreatePRReview => match input.pr_number {
            Some(n) => n,
            None => {
                return Err(AgentError::Other("PR number is required for review".to_owned()));
            },
        },
        GitHubAction::PostPRComment => match input.pr_number {
            Some(n) => n,
            None => {
                return Err(AgentError::Other("PR number is required for comment".to_owned()));
            },
        },
        GitHubAction::TriggerCopilotReview => match input.pr_number {
            Some(n) => n,
            None => {
                return Err(
                    AgentError::Other("PR number is required for Copilot review".to_owned()),
                );
            },
        },
        GitHubAction::GetPRInfo => match input.pr_number {
            Some(n) => n,
            None => {
                return Err(AgentError::Other("PR number is required".to_owned()));
            },
        },
        _ => match input.pr_number {
            Some(n) => n,
            None => 0,
        },
    };
    let mut number = String::new();
    push_decimal(&mut number, pr_number as u64);
    assert(number@ =~= decimal_text(pr_number as nat));
    let mut arguments: Vec<String> = Vec::new();
    match input.action {
        GitHubAction::UpdateIssue => {
            return Ok(
                GitHubPlan::Finished(
                    make_result(
                        GitHubAction::UpdateIssue,
                        None,
                        Some(1),
                        None,
                        None,
                        false,
                        "Issue update not implemented".to_owned(),
                    ),
                ),
            );
        },
        GitHubAction::CreatePRReview => {
            if input.options.dry_run {
                return Ok(
                    GitHubPlan::Finished(
                        make_result(
                            GitHubAction::CreatePRReview,
                            Some(pr_number),
                            None,
                            None,
                            Some(pull_address(pr_number)),
                            false,
                            "Dry run: PR review would be created".to_owned(),
                        ),
                    ),
                );
            }
            arguments.push("pr".to_owned());
            arguments.push("review".to_owned());
            arguments.push(number);
            arguments.push("--comment".to_owned());
        },
        GitHubAction::PostPRComment => {
            let comment = comment_to_post(input);
            if input.options.dry_run {
                let mut message = "Dry run: Comment would be posted: ".to_owned();
                message.append(comment.as_str());
                return Ok(
                    GitHubPlan::Finished(
                        make_result(
                            GitHubAction::PostPRComment,
                            Some(pr_number),
                            None,
                            Some(pull_address(pr_number)),
                            None,
                            false,
                            message,
                        ),
                    ),
                );
            }
            arguments.push("pr".to_owned());
            arguments.push("comment".to_owned());
            arguments.push(number);
            arguments.push("--body".to_owned());
            arguments.push(comment);
        },
        GitHubAction::TriggerCopilotReview => {
            if input.options.dry_run {
                return Ok(
                    GitHubPlan::Finished(
                        make_result(
                            GitHubAction::TriggerCopilotReview,
                            Some(pr_number),
                            None,
                            None,
                            None,
                            true,
                            "Dry run: Copilot review would be triggered".to_owned(),
                        ),
                    ),
                );
            }
            arguments.push("pr".to_owned());
            arguments.push("comment".to_owned());
            arguments.push(number);
            arguments.push("--body".to_owned());
            arguments.push("@copilot please review this pull request".to_owned());
        },
        GitHubAction::CreateIssue => {
            if input.options.dry_run {
                return Ok(
                    GitHubPlan::Finished(
                        make_result(
                            GitHubAction::CreateIssue,
                            None,
                            Some(1),
                            None,
                            None,
                            false,
                            "Dry run: Issue would be created".to_owned(),
                        ),
                    ),
                );
            }
            arguments.push("issue".to_owned());
            arguments.push("create".to_owned());
            arguments.push("--title".to_owned());
            arguments.push("Automated Code Analysis Results".to_owned());
            arguments.push("--body".to_owned());
            arguments.push(generate_issue_body(input.analysis_results.as_ref()));
        },
        GitHubAction::GetPRInfo => {
            arguments.push("pr".to_owned());
            arguments.push("view".to_owned());
            arguments.push(number);
            arguments.push("--json".to_owned());
            arguments.push(
                "title,body,state,author,headRefName,baseRefName,mergeable,draft".to_owned(),
            );
        },
        GitHubAction::ListIssues => {
            arguments.push("issue".to_owned());
            arguments.push("list".to_owned());
            arguments.push("--json".to_owned());
            arguments.push("number,title,state".to_owned());
        },
    }
    assert(arguments_view(arguments@) =~= action_arguments(*input));
    let ghost before = arguments@;
    match &input.options.repository {
        Some(repository) => {
            arguments.push("--repo".to_owned());
            arguments.push(repository.clone());
        },
        None => {},
    }
    assert(arguments_view(arguments@) =~= arguments_view(before) + repository_arguments(
        input.options,
    ));
    Ok(GitHubPlan::Run(arguments))
}

/// The arguments of the command that asks for a review once a review has
/// been created: a comment on the pull request. `None` where nothing is
/// to be asked for: the action is no review, the options leave it out, or
/// there is no number of a pull request.
pub open spec fn follow_up_arguments(input: GitHubIntegrationInput) -> Option<Seq<Seq<char>>> {
    if input.action == GitHubAction::CreatePRReview && input.options.include_copilot
        && input.pr_number is Some {
        Some(
            seq![
                "pr"@,
                "comment"@,
                decimal_text(input.pr_number->0 as nat),
                "--body"@,
                copilot_request(),
            ] + repository_arguments(input.options),
        )
    } else {
        None
    }
}

/// Decides what is to be run once the review of a pull request has been
/// created.
pub fn plan_follow_up(input: &GitHubIntegrationInput) -> (r: Option<Vec<String>>)
    ensures
        match r {
            Some(arguments) => follow_up_arguments(*input) == Some(arguments_view(arguments@)),
            None => follow_up_arguments(*input) is None,
        },
{
    if !(input.action == GitHubAction::CreatePRReview && input.options.include_copilot) {
        return None;
    }
    let pr_number = match input.pr_number {
        Some(n) => n,
        None => {
            return None;
        },
    };
    let mut number = String::new();
    push_decimal(&mut number, pr_number as u64);
    assert(number@ =~= decimal_text(pr_number as nat));
    let mut arguments: Vec<String> = Vec::new();
    arguments.push("pr".to_owned());
    arguments.push("comment".to_owned());
    arguments.push(number);
    arguments.push("--body".to_owned());
    arguments.push("@copilot please review this pull request".to_owned());
    let ghost before = arguments@;
    assert(arguments_view(before) =~= seq![
        "pr"@,
        "comment"@,
        decimal_text(pr_number as nat),
        "--body"@,
        copilot_request(),
    ]);
    match &input.options.repository {
        Some(repository) => {
            arguments.push("--repo".to_owned());
            arguments.push(repository.clone());
        },
        None => {},
    }
    assert(arguments_view(arguments@) =~= arguments_view(before) + repository_arguments(
        input.options,
    ));
    Some(arguments)
}

/// A piece of a text as a line: a piece that a line feed ends loses the
/// carriage return before it, if it has one; the last piece stays as it
/// is.
pub open spec fn without_return(line: Seq<char>, ended: bool) -> Seq<char> {
    if ended && line.len() > 0 && line.last() == '\r' {
        line.drop_last()
    } else {
        line
    }
}

/// The part of a line behind its last slash; the whole line where it has
/// none.
pub open spec fn last_segment(line: Seq<char>) -> Seq<char> {
    line.skip(last_position(line, '/') + 1)
}

/// The first line that holds an address of GitHub.
pub open spec fn address_line(lines: Seq<Seq<char>>) -> Option<Seq<char>>
    decreases lines.len(),
{
    if lines.len() == 0 {
        None
    } else if contains_text(without_return(lines[0], lines.len() > 1), "https://github.com"@) {
        Some(without_return(lines[0], lines.len() > 1))
    } else {
        address_line(lines.drop_first())
    }
}

/// The number of the issue that the output of the command names: the
/// number at the end of the first line that holds an address of GitHub.
pub open spec fn issue_number_in(stdout: Seq<char>) -> Option<u32> {
    match address_line(lines_of(stdout)) {
        Some(line) => u32_of_text(last_segment(line)),
        None => None,
    }
}

/// Reads the number of an issue from the output of the command that
/// created it.
pub fn parse_issue_number(stdout: &str) -> (r: Option<u32>)
    ensures
        r == issue_number_in(stdout@),
{
    let chars = chars_of(stdout);
    let lines = split_lines(&chars);
    let ghost all = lines_of(stdout@);
    let mut i: usize = 0;
    assert(all.skip(0) =~= all);
    while i < lines.len()
        invariant
            i <= lines@.len(),
            lines@.len() == all.len(),
            all == lines_of(stdout@),
            forall|j: int| 0 <= j < lines@.len() ==> (#[trigger] lines@[j])@ == all[j],
            address_line(all) == address_line(all.skip(i as int)),
        decreases lines@.len() - i,
    {
        proof {
            assert(all.skip(i as int)[0] == all[i as int]);
            assert(all.skip(i as int).drop_first() =~= all.skip(i + 1));
        }
        let n = lines[i].len();
        let end: usize = if i + 1 < lines.len() && n > 0 && lines[i][n - 1] == '\r' {
            n - 1
        } else {
            n
        };
        let mut line: Vec<char> = Vec::new();
        let mut k: usize = 0;
        assert(lines@[i as int]@.take(0) =~= Seq::empty());
        while k < end
            invariant
                k <= end <= lines@[i as int]@.len(),
                i < lines@.len(),
                line@ == lines@[i as int]@.take(k as int),
            decreases end - k,
        {
            line.push(lines[i][k]);
            assert(lines@[i as int]@.take(k + 1) =~= lines@[i as int]@.take(k as int).push(
                lines@[i as int]@[k as int],
            ));
            k = k + 1;
        }
        proof {
            if end == n {
                assert(lines@[i as int]@.take(n as int) =~= lines@[i as int]@);
            } else {
                assert(lines@[i as int]@.take(end as int) =~= lines@[i as int]@.drop_last());
            }
            assert(all.skip(i as int).len() > 1 <==> i + 1 < lines@.len());
            assert(line@ == without_return(all[i as int], i + 1 < lines@.len()));
        }
        if find_text(&line, "https://github.com").is_some() {
            let from: usize = match find_last_char(&line, '/') {
                Some(p) => p + 1,
                None => 0,
            };
            let m = line.len();
            assert(line@.subrange(from as int, m as int) =~= last_segment(line@));
            return parse_u32(&line, from, m);
        }
        i = i + 1;
    }
    None
}

/// The text of the error for a command that failed.
pub open spec fn command_failed_message(stderr: Seq<char>) -> Seq<char> {
    "Command failed: "@ + stderr
}

/// What an action reports after its command has succeeded, or the message
/// of the error for an output that cannot be read.
pub open spec fn is_finished_result(
    r: Result<GitHubIntegrationResult, AgentError>,
    input: GitHubIntegrationInput,
    stdout: Seq<char>,
    copilot_triggered: bool,
) -> bool {
    match input.action {
        GitHubAction::CreatePRReview => r matches Ok(result) && is_result(
            result,
            input.action,
            input.pr_number,
            None,
            None,
            Some(pull_url(input.pr_number->0)),
            copilot_triggered,
            "PR review created successfully"@,
        ),
        GitHubAction::PostPRComment => r matches Ok(result) && is_result(
            result,
            input.action,
            input.pr_number,
            None,
            Some(pull_url(input.pr_number->0)),
            None,
            false,
            "Comment posted successfully"@,
        ),
        GitHubAction::TriggerCopilotReview => r matches Ok(result) && is_result(
            result,
            input.action,
            input.pr_number,
            None,
            None,
            None,
            true,
            "Copilot review triggered successfully"@,
        ),
        GitHubAction::CreateIssue => r matches Ok(result) && is_result(
            result,
            input.action,
            None,
            issue_number_in(stdout),
            None,
            None,
            false,
            "Issue created successfully"@,
        ),
        GitHubAction::UpdateIssue => r matches Ok(result) && is_result(
            result,
            input.action,
            None,
            Some(1),
            None,
            None,
            false,
            "Issue update not implemented"@,
        ),
        GitHubAction::GetPRInfo => match json_parsed(stdout) {
            Ok(info) => r matches Ok(result) && is_result(
                result,
                input.action,
                input.pr_number,
                None,
                None,
                None,
                false,
                "PR info retrieved: "@ + json_text(info),
            ),
            Err(message) => r matches Err(AgentError::Serialization(m)) && m@ == message,
        },
        GitHubAction::ListIssues => match json_parsed(stdout) {
            Ok(list) => match json_items(list) {
                Some(issues) => r matches Ok(result) && is_result(
                    result,
                    input.action,
                    None,
                    None,
                    None,
                    None,
                    false,
                    "Found "@ + decimal_text(issues.len()) + " issues"@,
                ),
                None => r matches Err(AgentError::Serialization(m)) && m@
                    == "expected a list of issues"@,
            },
            Err(message) => r matches Err(AgentError::Serialization(m)) && m@ == message,
        },
    }
}

/// Makes the result of an action from the outcome of its command. A
/// command that failed gives the error with what it wrote to its error
/// stream. `copilot_triggered` says whether a review was asked for after
/// a review was created.
pub fn finish_action(
    input: &GitHubIntegrationInput,
    outcome: &CommandOutcome,
    copilot_triggered: bool,
) -> (r: Result<GitHubIntegrationResult, AgentError>)
    ensures
        needs_pr_number(input.action) && input.pr_number is None ==> (r matches Err(
            AgentError::Other(m),
        ) && m@ == missing_pr_message(input.action)),
        !(needs_pr_number(input.action) && input.pr_number is None) && !outcome.success ==> (
        r matches Err(AgentError::GitHubIntegration(m)) && m@ == command_failed_message(
            outcome.stderr@,
        )),
        !(needs_pr_number(input.action) && input.pr_number is None) && outcome.success
            ==> is_finished_result(r, *input, outcome.stdout@, copilot_triggered),
{
    let pr_number: u32 = match input.pr_number {
        Some(n) => n,
        None => {
            match input.action {
                GitHubAction::CreatePRReview => {
                    return Err(AgentError::Other("PR number is required for review".to_owned()));
                },
                GitHubAction::PostPRComment => {
                    return Err(AgentError::Other("PR number is required for comment".to_owned()));
                },
                GitHubAction::TriggerCopilotReview => {
                    return Err(
                        AgentError::Other("PR number is required for Copilot review".to_owned()),
                    );
                },
                GitHubAction::GetPRInfo => {
                    return Err(AgentError::Other("PR number is required".to_owned()));
                },
                _ => 0,
            }
        },
    };
    if !outcome.success {
        return Err(
            AgentError::from_github(GitHubIntegrationError::CommandFailed(outcome.stderr.clone())),
        );
    }
    match input.action {
        GitHubAction::CreatePRReview => Ok(
            make_result(
                GitHubAction::CreatePRReview,
                Some(pr_number),
                None,
                None,
                Some(pull_address(pr_number)),
                copilot_triggered,
                "PR review created successfully".to_owned(),
            ),
        ),
        GitHubAction::PostPRComment => Ok(
            make_result(
                GitHubAction::PostPRComment,
                Some(pr_number),
                None,
                Some(pull_address(pr_number)),
                None,
                false,
                "Comment posted successfully".to_owned(),
            ),
        ),
        GitHubAction::TriggerCopilotReview => Ok(
            make_result(
                GitHubAction::TriggerCopilotReview,
                Some(pr_number),
                None,
                None,
                None,
                true,
                "Copilot review triggered successfully".to_owned(),
            ),
        ),
        GitHubAction::CreateIssue => Ok(
            make_result(
                GitHubAction::CreateIssue,
                None,
                parse_issue_number(outcome.stdout.as_str()),
                None,
                None,
                false,
                "Issue created successfully".to_owned(),
            ),
        ),
        GitHubAction::UpdateIssue => Ok(
            make_result(
                GitHubAction::UpdateIssue,
                None,
                Some(1),
                None,
                None,
                false,
                "Issue update not implemented".to_owned(),
            ),
        ),
        GitHubAction::GetPRInfo => match parse_json(outcome.stdout.as_str()) {
            Ok(info) => {
                let mut message = "PR info retrieved: ".to_owned();
                message.append(to_text(&info).as_str());
                Ok(
                    make_result(
                        GitHubAction::GetPRInfo,
                        Some(pr_number),
                        None,
                        None,
                        None,
                        false,
                        message,
                    ),
                )
            },
            Err(message) => Err(AgentError::Serialization(message)),
        },
        GitHubAction::ListIssues => match parse_json(outcome.stdout.as_str()) {
            Ok(list) => match items(&list) {
                Some(issues) => {
                    let mut message = "Found ".to_owned();
                    push_decimal(&mut message, issues.len() as u64);
                    message.append(" issues");
                    Ok(
                        make_result(
                            GitHubAction::ListIssues,
                            None,
                            None,
                            None,
                            None,
                            false,
                            message,
                        ),
                    )
                },
                None => Err(AgentError::Serialization("expected a list of issues".to_owned())),
            },
            Err(message) => Err(AgentError::Serialization(message)),
        },
    }
}

} // verus!
