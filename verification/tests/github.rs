use agent_workflow::agents::AnalysisMetrics;
use agent_workflow::agents::CodeAnalysisResult;
use agent_workflow::agents::EffortLevel;
use agent_workflow::agents::Issue;
use agent_workflow::agents::IssueCategory;
use agent_workflow::agents::IssueSeverity;
use agent_workflow::agents::Suggestion;
use agent_workflow::github::finish_action;
use agent_workflow::github::generate_issue_body;
use agent_workflow::github::generate_review_comment;
use agent_workflow::github::parse_issue_number;
use agent_workflow::github::plan_action;
use agent_workflow::github::plan_follow_up;
use agent_workflow::github::CommandOutcome;
use agent_workflow::github::GitHubAction;
use agent_workflow::github::GitHubIntegrationAgent;
use agent_workflow::github::GitHubIntegrationError;
use agent_workflow::github::GitHubIntegrationInput;
use agent_workflow::github::GitHubIntegrationResult;
use agent_workflow::github::GitHubOptions;
use agent_workflow::github::GitHubPlan;
use agent_workflow::model::AgentCapability;
use agent_workflow::model::AgentError;
use agent_workflow::model::ProjectType;
use std::path::PathBuf;
use std::time::Duration;

fn issue(severity: IssueSeverity, file: &str, line: Option<u32>, message: &str, tip: Option<&str>) -> Issue {
    Issue {
        severity,
        category: IssueCategory::Correctness,
        file: PathBuf::from(file),
        line,
        message: message.to_string(),
        rule: "r".to_string(),
        suggestion: tip.map(|t| t.to_string()),
    }
}

fn suggestion(title: &str, priority: u8, effort: EffortLevel) -> Suggestion {
    Suggestion {
        title: title.to_string(),
        description: format!("about {}", title),
        priority,
        effort,
        files_affected: vec![],
    }
}

fn results(success: bool, issues: Vec<Issue>, suggestions: Vec<Suggestion>) -> CodeAnalysisResult {
    CodeAnalysisResult {
        success,
        issues,
        metrics: AnalysisMetrics {
            total_files: 0,
            total_lines: 0,
            issues_count: vec![(IssueSeverity::Error, 1), (IssueSeverity::Warning, 12)],
            coverage_percentage: None,
            complexity_score: None,
        },
        suggestions,
        execution_time: Duration::from_secs(0),
    }
}

fn input(action: GitHubAction, pr_number: Option<u32>) -> GitHubIntegrationInput {
    GitHubIntegrationInput {
        project_path: PathBuf::from("/p"),
        action,
        analysis_results: None,
        pr_number,
        options: GitHubOptions::default(),
    }
}

fn run(plan: Result<GitHubPlan, AgentError>) -> Vec<String> {
    match plan {
        Ok(GitHubPlan::Run(arguments)) => arguments,
        other => panic!("expected a command, got {:?}", other),
    }
}

fn finished(plan: Result<GitHubPlan, AgentError>) -> GitHubIntegrationResult {
    match plan {
        Ok(GitHubPlan::Finished(result)) => result,
        other => panic!("expected a result, got {:?}", other),
    }
}

fn other_error<T: std::fmt::Debug>(r: Result<T, AgentError>) -> String {
    match r {
        Err(AgentError::Other(m)) => m,
        other => panic!("expected an error, got {:?}", other),
    }
}

fn succeeded(stdout: &str) -> CommandOutcome {
    CommandOutcome { success: true, stdout: stdout.to_string(), stderr: String::new() }
}

#[test]
fn the_github_agent_describes_itself() {
    let agent = GitHubIntegrationAgent::new();
    assert_eq!(agent.name(), "github_integration");
    assert_eq!(agent.version(), "1.0.0");
    assert_eq!(agent.description(), "Integrates with GitHub for PR reviews and issue management");
    assert_eq!(agent.supported_project_types(), &[ProjectType::Generic]);
    assert_eq!(
        agent.capabilities(),
        &[AgentCapability::CopilotIntegration, AgentCapability::ReportGeneration]
    );
    let profile = agent.profile();
    assert_eq!(profile.name, "github_integration");
    assert_eq!(profile.description, "Integrates with GitHub for PR reviews and issue management");
    let options = GitHubOptions::default();
    assert!(options.include_copilot);
    assert!(!options.dry_run);
    assert!(!options.auto_merge);
    assert!(options.repository.is_none() && options.owner.is_none() && options.comment_template.is_none());
}

#[test]
fn errors_of_github_as_errors_of_the_engine() {
    let text = |e: GitHubIntegrationError| match AgentError::from_github(e) {
        AgentError::GitHubIntegration(m) => m,
        other => panic!("unexpected {:?}", other),
    };
    assert_eq!(text(GitHubIntegrationError::GitHubCliNotFound), "GitHub CLI not found");
    assert_eq!(text(GitHubIntegrationError::CommandFailed("a".to_string())), "Command failed: a");
    assert_eq!(text(GitHubIntegrationError::ParseError("b".to_string())), "Parse error: b");
    assert_eq!(
        text(GitHubIntegrationError::AuthenticationError("c".to_string())),
        "Authentication error: c"
    );
    match AgentError::from_github(GitHubIntegrationError::IoError("d".to_string())) {
        AgentError::Io(m) => assert_eq!(m, "d"),
        other => panic!("unexpected {:?}", other),
    }
}

#[test]
fn comment_on_a_pull_request() {
    assert_eq!(
        generate_review_comment(None),
        "\u{1F916} **Code Review Analysis**\n\nNo analysis results available. Please run code analysis first."
    );
    let issues = vec![
        issue(IssueSeverity::Error, "src/a.rs", Some(10), "first", None),
        issue(IssueSeverity::Warning, "src/b.rs", None, "second", Some("tip")),
        issue(IssueSeverity::Info, "c", Some(1), "third", None),
        issue(IssueSeverity::Style, "d", Some(2), "fourth", None),
        issue(IssueSeverity::Error, "e", Some(3), "fifth", None),
        issue(IssueSeverity::Error, "f", Some(4), "sixth", None),
    ];
    let suggestions = vec![
        suggestion("urgent", 3, EffortLevel::High),
        suggestion("soon", 4, EffortLevel::Medium),
        suggestion("later", 7, EffortLevel::Low),
        suggestion("never", 0, EffortLevel::Low),
    ];
    let comment = generate_review_comment(Some(&results(false, issues, suggestions)));
    let expected: String = [
        "## \u{1F916} Code Review + Copilot Analysis\n\n",
        "\u{274C} **Analysis found issues**\n\n",
        "### Summary\n",
        "- Total issues found: 6\n",
        "- \u{1F534}: 1\n",
        "- \u{1F7E1}: 12\n",
        "\n### Key Issues\n",
        "1. \u{1F534} src/a.rs:10 - first\n",
        "2. \u{1F7E1} src/b.rs:0 - second\n",
        "3. \u{1F535} c:1 - third\n",
        "4. \u{1F7E3} d:2 - fourth\n",
        "5. \u{1F534} e:3 - fifth\n",
        "\n### Recommendations\n",
        "\u{1F534} **urgent** (Priority: 3, Effort: High)\n",
        "   about urgent\n",
        "\u{1F7E1} **soon** (Priority: 4, Effort: Medium)\n",
        "   about soon\n",
        "\u{1F535} **later** (Priority: 7, Effort: Low)\n",
        "   about later\n",
        "\u{1F535} **never** (Priority: 0, Effort: Low)\n",
        "   about never\n",
        "\n---\n",
        "\u{1F4A1} **Tip**: Use `@copilot` in a comment to get AI-powered suggestions for specific code changes.\n"
    ].concat();
    assert_eq!(comment, expected);
    let bare = generate_review_comment(Some(&results(true, vec![], vec![])));
    assert_eq!(
        bare,
        [
            "## \u{1F916} Code Review + Copilot Analysis\n\n",
            "\u{2705} **Analysis completed successfully**\n\n",
            "### Summary\n",
            "- Total issues found: 0\n",
            "- \u{1F534}: 1\n",
            "- \u{1F7E1}: 12\n",
            "\n---\n",
            "\u{1F4A1} **Tip**: Use `@copilot` in a comment to get AI-powered suggestions for specific code changes.\n"
        ].concat()
    );
}

#[test]
fn body_of_an_issue() {
    assert_eq!(
        generate_issue_body(None),
        "\u{1F916} **Automated Code Analysis**\n\nNo analysis results available."
    );
    let issues = vec![
        issue(IssueSeverity::Warning, "src/b.rs", None, "second", Some("tip")),
        issue(IssueSeverity::Error, "src/a.rs", Some(10), "first", None),
    ];
    assert_eq!(
        generate_issue_body(Some(&results(false, issues, vec![suggestion("x", 1, EffortLevel::Low)]))),
        [
            "## \u{1F916} Automated Code Analysis Report\n\n",
            "\u{274C} **Analysis found critical issues**\n\n",
            "### Issue Breakdown\n",
            "- \u{1F534}: 1\n",
            "- \u{1F7E1}: 12\n",
            "\n### All Issues\n",
            "1. \u{1F7E1} src/b.rs:0 - second\n",
            "   \u{1F4A1} tip\n",
            "2. \u{1F534} src/a.rs:10 - first\n"
        ].concat()
    );
    assert_eq!(
        generate_issue_body(Some(&results(true, vec![], vec![]))),
        [
            "## \u{1F916} Automated Code Analysis Report\n\n",
            "\u{2705} **Analysis completed successfully**\n\n",
            "### Issue Breakdown\n",
            "- \u{1F534}: 1\n",
            "- \u{1F7E1}: 12\n"
        ].concat()
    );
}

#[test]
fn actions_without_the_number_of_a_pull_request() {
    assert_eq!(
        other_error(plan_action(&input(GitHubAction::CreatePRReview, None))),
        "PR number is required for review"
    );
    assert_eq!(
        other_error(plan_action(&input(GitHubAction::PostPRComment, None))),
        "PR number is required for comment"
    );
    assert_eq!(
        other_error(plan_action(&input(GitHubAction::TriggerCopilotReview, None))),
        "PR number is required for Copilot review"
    );
    assert_eq!(other_error(plan_action(&input(GitHubAction::GetPRInfo, None))), "PR number is required");
    assert_eq!(
        other_error(finish_action(&input(GitHubAction::GetPRInfo, None), &succeeded("{}"), false)),
        "PR number is required"
    );
    let mut dry = input(GitHubAction::PostPRComment, None);
    dry.options.dry_run = true;
    assert_eq!(other_error(plan_action(&dry)), "PR number is required for comment");
}

#[test]
fn commands_of_the_actions() {
    assert_eq!(
        run(plan_action(&input(GitHubAction::CreatePRReview, Some(42)))),
        vec!["pr", "review", "42", "--comment"]
    );
    let mut comment = input(GitHubAction::PostPRComment, Some(7));
    comment.options.repository = Some("me/mine".to_string());
    assert_eq!(
        run(plan_action(&comment)),
        vec![
            "pr",
            "comment",
            "7",
            "--body",
            "\u{1F916} **Code Review Analysis**\n\nNo analysis results available. Please run code analysis first.",
            "--repo",
            "me/mine"
        ]
    );
    comment.options.comment_template = Some("my words".to_string());
    comment.analysis_results = Some(results(true, vec![], vec![]));
    assert_eq!(
        run(plan_action(&comment)),
        vec!["pr", "comment", "7", "--body", "my words", "--repo", "me/mine"]
    );
    comment.options.comment_template = None;
    assert_eq!(
        run(plan_action(&comment))[4],
        generate_review_comment(Some(&results(true, vec![], vec![])))
    );
    assert_eq!(
        run(plan_action(&input(GitHubAction::TriggerCopilotReview, Some(0)))),
        vec!["pr", "comment", "0", "--body", "@copilot please review this pull request"]
    );
    assert_eq!(
        run(plan_action(&input(GitHubAction::CreateIssue, None))),
        vec![
            "issue",
            "create",
            "--title",
            "Automated Code Analysis Results",
            "--body",
            "\u{1F916} **Automated Code Analysis**\n\nNo analysis results available."
        ]
    );
    let mut info = input(GitHubAction::GetPRInfo, Some(4294967295));
    info.options.dry_run = true;
    assert_eq!(
        run(plan_action(&info)),
        vec![
            "pr",
            "view",
            "4294967295",
            "--json",
            "title,body,state,author,headRefName,baseRefName,mergeable,draft"
        ]
    );
    let mut list = input(GitHubAction::ListIssues, None);
    list.options.dry_run = true;
    list.options.repository = Some("o/r".to_string());
    assert_eq!(
        run(plan_action(&list)),
        vec!["issue", "list", "--json", "number,title,state", "--repo", "o/r"]
    );
}

#[test]
fn actions_that_are_run_dry() {
    let dry = |action: GitHubAction, pr_number: Option<u32>| {
        let mut i = input(action, pr_number);
        i.options.dry_run = true;
        finished(plan_action(&i))
    };
    let review = dry(GitHubAction::CreatePRReview, Some(5));
    assert!(review.success);
    assert_eq!(review.action, GitHubAction::CreatePRReview);
    assert_eq!(review.pr_number, Some(5));
    assert_eq!(review.issue_number, None);
    assert_eq!(review.comment_url, None);
    assert_eq!(review.review_url.as_deref(), Some("https://github.com/owner/repo/pull/5"));
    assert!(!review.copilot_triggered);
    assert_eq!(review.execution_time, Duration::from_secs(0));
    assert_eq!(review.message, "Dry run: PR review would be created");
    let comment = dry(GitHubAction::PostPRComment, Some(6));
    assert_eq!(comment.comment_url.as_deref(), Some("https://github.com/owner/repo/pull/6"));
    assert_eq!(comment.review_url, None);
    assert_eq!(
        comment.message,
        format!("Dry run: Comment would be posted: {}", generate_review_comment(None))
    );
    let copilot = dry(GitHubAction::TriggerCopilotReview, Some(6));
    assert!(copilot.copilot_triggered);
    assert_eq!(copilot.pr_number, Some(6));
    assert_eq!(copilot.message, "Dry run: Copilot review would be triggered");
    let created = dry(GitHubAction::CreateIssue, Some(6));
    assert_eq!(created.pr_number, None);
    assert_eq!(created.issue_number, Some(1));
    assert_eq!(created.message, "Dry run: Issue would be created");
    for plan in [dry(GitHubAction::UpdateIssue, None), finished(plan_action(&input(GitHubAction::UpdateIssue, Some(3))))] {
        assert!(plan.success);
        assert_eq!(plan.action, GitHubAction::UpdateIssue);
        assert_eq!(plan.pr_number, None);
        assert_eq!(plan.issue_number, Some(1));
        assert_eq!(plan.message, "Issue update not implemented");
    }
}

#[test]
fn number_of_a_created_issue() {
    assert_eq!(parse_issue_number("https://github.com/o/r/issues/123\n"), Some(123));
    assert_eq!(parse_issue_number("Creating issue\r\nhttps://github.com/o/r/issues/+7\r\nmore/9"), Some(7));
    assert_eq!(parse_issue_number("see https://github.com/o/r/issues/12 now\nhttps://github.com/o/r/issues/3"), None);
    assert_eq!(parse_issue_number("https://github.com"), None);
    assert_eq!(parse_issue_number("https://github.com/"), None);
    assert_eq!(parse_issue_number("12 https://github.com"), None);
    assert_eq!(parse_issue_number("https://github.com/o/r/issues/4294967295"), Some(4294967295));
    assert_eq!(parse_issue_number("https://github.com/o/r/issues/4294967296"), None);
    assert_eq!(parse_issue_number("https://github.com/o/r/issues/12\r"), None);
    assert_eq!(parse_issue_number("https://gitlab.com/o/r/issues/12"), None);
    assert_eq!(parse_issue_number(""), None);
    for text in [
        "https://github.com/o/r/issues/123\n",
        "a\r\nhttps://github.com/o/r/issues/+7\r\nmore/9",
        "https://github.com/o/r/issues/12\r",
        "x\rhttps://github.com/1\r\n",
        "\n\nhttps://github.com/o/-1",
        "https://github.com/o/ 1",
    ] {
        let mut expected = None;
        for line in text.lines() {
            if line.contains("https://github.com") {
                expected = line.split('/').last().and_then(|n| n.parse::<u32>().ok());
                break;
            }
        }
        assert_eq!(parse_issue_number(text), expected, "{:?}", text);
    }
}

#[test]
fn results_of_the_actions() {
    let failed = CommandOutcome { success: false, stdout: "out".to_string(), stderr: "denied".to_string() };
    match finish_action(&input(GitHubAction::ListIssues, None), &failed, false) {
        Err(AgentError::GitHubIntegration(m)) => assert_eq!(m, "Command failed: denied"),
        other => panic!("unexpected {:?}", other),
    }
    let review = finish_action(&input(GitHubAction::CreatePRReview, Some(9)), &succeeded(""), true).unwrap();
    assert!(review.success);
    assert_eq!(review.pr_number, Some(9));
    assert_eq!(review.review_url.as_deref(), Some("https://github.com/owner/repo/pull/9"));
    assert!(review.copilot_triggered);
    assert_eq!(review.message, "PR review created successfully");
    let review = finish_action(&input(GitHubAction::CreatePRReview, Some(9)), &succeeded(""), false).unwrap();
    assert!(!review.copilot_triggered);
    let comment = finish_action(&input(GitHubAction::PostPRComment, Some(9)), &succeeded(""), true).unwrap();
    assert_eq!(comment.comment_url.as_deref(), Some("https://github.com/owner/repo/pull/9"));
    assert!(!comment.copilot_triggered);
    assert_eq!(comment.message, "Comment posted successfully");
    let copilot = finish_action(&input(GitHubAction::TriggerCopilotReview, Some(9)), &succeeded(""), false).unwrap();
    assert!(copilot.copilot_triggered);
    assert_eq!(copilot.comment_url, None);
    assert_eq!(copilot.message, "Copilot review triggered successfully");
    let created = finish_action(
        &input(GitHubAction::CreateIssue, Some(9)),
        &succeeded("https://github.com/o/r/issues/77\n"),
        false,
    )
    .unwrap();
    assert_eq!(created.pr_number, None);
    assert_eq!(created.issue_number, Some(77));
    assert_eq!(created.message, "Issue created successfully");
    let created = finish_action(&input(GitHubAction::CreateIssue, None), &succeeded("done"), false).unwrap();
    assert_eq!(created.issue_number, None);
    let updated = finish_action(&input(GitHubAction::UpdateIssue, None), &succeeded(""), false).unwrap();
    assert_eq!(updated.issue_number, Some(1));
    assert_eq!(updated.message, "Issue update not implemented");
    let info = finish_action(
        &input(GitHubAction::GetPRInfo, Some(2)),
        &succeeded("{\"title\": \"T\", \"draft\": false}"),
        false,
    )
    .unwrap();
    assert_eq!(info.pr_number, Some(2));
    assert_eq!(info.message, "PR info retrieved: {\"draft\":false,\"title\":\"T\"}");
    match finish_action(&input(GitHubAction::GetPRInfo, Some(2)), &succeeded("{"), false) {
        Err(AgentError::Serialization(m)) => {
            assert_eq!(m, serde_json::from_str::<serde_json::Value>("{").unwrap_err().to_string())
        }
        other => panic!("unexpected {:?}", other),
    }
    let list = finish_action(
        &input(GitHubAction::ListIssues, None),
        &succeeded("[{\"number\": 1}, {\"number\": 2}, 3]"),
        false,
    )
    .unwrap();
    assert_eq!(list.pr_number, None);
    assert_eq!(list.message, "Found 3 issues");
    match finish_action(&input(GitHubAction::ListIssues, None), &succeeded("{}"), false) {
        Err(AgentError::Serialization(m)) => assert_eq!(m, "expected a list of issues"),
        other => panic!("unexpected {:?}", other),
    }
    assert!(matches!(
        finish_action(&input(GitHubAction::ListIssues, None), &succeeded(""), false),
        Err(AgentError::Serialization(_))
    ));
}

#[test]
fn review_is_followed_by_a_request_to_copilot() {
    let mut review = input(GitHubAction::CreatePRReview, Some(8));
    assert_eq!(
        plan_follow_up(&review).unwrap(),
        vec!["pr", "comment", "8", "--body", "@copilot please review this pull request"]
    );
    review.options.repository = Some("o/r".to_string());
    review.options.dry_run = true;
    assert_eq!(
        plan_follow_up(&review).unwrap(),
        vec!["pr", "comment", "8", "--body", "@copilot please review this pull request", "--repo", "o/r"]
    );
    review.options.include_copilot = false;
    assert_eq!(plan_follow_up(&review), None);
    assert_eq!(plan_follow_up(&input(GitHubAction::CreatePRReview, None)), None);
    assert_eq!(plan_follow_up(&input(GitHubAction::PostPRComment, Some(8))), None);
    assert_eq!(plan_follow_up(&input(GitHubAction::TriggerCopilotReview, Some(8))), None);
}
