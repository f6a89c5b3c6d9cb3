use larkstack::config::{parse_alert_labels, parse_repo_whitelist, GitHubConfig, UserMap};
use larkstack::event::Event;
use larkstack::github::{
    branch_from_ref, classify_event_type, handle_dependabot, handle_issues, handle_pull_request,
    handle_push, handle_secret_scanning, handle_workflow_run, is_protected_branch,
    is_repo_ignored, repo_names, verify_github_signature, Commit, CommitUser, DependabotAdvisory,
    DependabotAlertData, DependabotDependency, DependabotPackage, DependabotPayload,
    GitHubEventKind, GitRef, Issue, IssuesPayload, Label, PrPayload, PullRequest, PushPayload,
    SecretScanningAlertData, SecretScanningPayload, User, WorkflowRunData, WorkflowRunPayload,
};

fn config() -> GitHubConfig {
    let mut users = UserMap::new();
    users.insert("octocat".into(), "ou_123".into());
    GitHubConfig::from_values(Some("s3cret".into()), users, None, Some("app, , web "), None).unwrap()
}

fn user(login: &str) -> User {
    User { login: login.into() }
}

fn pr(action: &str, merged: bool, reviewer: Option<&str>) -> PrPayload {
    PrPayload {
        action: action.into(),
        number: 42,
        pull_request: PullRequest {
            title: Some("Add feature".into()),
            user: Some(user("alice")),
            html_url: Some("https://github.com/o/app/pull/42".into()),
            head: GitRef { ref_name: "feature".into() },
            base: GitRef { ref_name: "main".into() },
            additions: Some(10),
            deletions: None,
            merged_at: if merged { Some("2024-01-01T00:00:00Z".into()) } else { None },
            merged_by: None,
        },
        requested_reviewer: reviewer.map(user),
    }
}

#[test]
fn github_signature_needs_prefix() {
    let tag = "5bdcc146bf60754e6a042426089575c75a003f089d2739839dec58b964ec3843";
    let body = b"what do ya want for nothing?";
    assert!(verify_github_signature("Jefe", body, &format!("sha256={tag}")));
    assert!(!verify_github_signature("Jefe", body, tag));
    assert!(!verify_github_signature("Jefe", body, &format!("sha1={tag}")));
}

#[test]
fn branches() {
    assert_eq!(branch_from_ref("refs/heads/main"), "main");
    assert_eq!(branch_from_ref("refs/tags/v1"), "refs/tags/v1");
    assert!(is_protected_branch("main"));
    assert!(is_protected_branch("master"));
    assert!(is_protected_branch("release/1.0"));
    assert!(!is_protected_branch("feature"));
    assert!(!is_protected_branch("mainline"));
}

#[test]
fn whitelist_filtering() {
    let cfg = config();
    assert_eq!(cfg.repo_whitelist, vec!["app", "web"]);
    assert!(!is_repo_ignored(&cfg.repo_whitelist, "app"));
    assert!(is_repo_ignored(&cfg.repo_whitelist, "other"));
    assert!(!is_repo_ignored(&cfg.repo_whitelist, ""));
    assert!(!is_repo_ignored(&[], "other"));
}

#[test]
fn repo_display_names() {
    assert_eq!(repo_names(Some("app".into()), Some("o/app".into())), ("o/app".to_string(), "app".to_string()));
    assert_eq!(repo_names(Some("app".into()), None), ("app".to_string(), "app".to_string()));
    assert_eq!(repo_names(None, None), (String::new(), String::new()));
}

#[test]
fn event_types() {
    assert_eq!(classify_event_type("pull_request"), GitHubEventKind::PullRequest);
    assert_eq!(classify_event_type("push"), GitHubEventKind::Push);
    assert_eq!(classify_event_type("dependabot_alert"), GitHubEventKind::DependabotAlert);
    assert_eq!(classify_event_type("star"), GitHubEventKind::Other);
}

#[test]
fn config_parsing() {
    assert_eq!(parse_alert_labels(None), vec!["bug", "urgent", "p0"]);
    assert_eq!(parse_alert_labels(Some(" Bug ,SEV1")), vec!["bug", "sev1"]);
    assert_eq!(parse_repo_whitelist(None), Vec::<String>::new());
    assert_eq!(parse_repo_whitelist(Some(" a ,,b")), vec!["a", "b"]);
    assert!(GitHubConfig::from_values(None, UserMap::new(), None, None, None).is_none());
}

#[test]
fn user_map_latest_entry_wins() {
    let mut m = UserMap::new();
    m.insert("a".into(), "1".into());
    m.insert("b".into(), "2".into());
    m.insert("a".into(), "3".into());
    assert_eq!(m.get("a").map(|s| s.as_str()), Some("3"));
    assert_eq!(m.get("b").map(|s| s.as_str()), Some("2"));
    assert_eq!(m.get("c"), None);
}

#[test]
fn pr_opened() {
    let (ev, dm) = handle_pull_request(&config(), "o/app", &pr("opened", false, None)).unwrap();
    assert!(dm.is_none());
    match ev {
        Event::PrOpened { repo, number, title, author, head_branch, base_branch, additions, deletions, url } => {
            assert_eq!(repo, "o/app");
            assert_eq!(number, 42);
            assert_eq!(title, "Add feature");
            assert_eq!(author, "alice");
            assert_eq!(head_branch, "feature");
            assert_eq!(base_branch, "main");
            assert_eq!(additions, 10);
            assert_eq!(deletions, 0);
            assert_eq!(url, "https://github.com/o/app/pull/42");
        }
        _ => panic!("wrong event"),
    }
}

#[test]
fn pr_review_requested_maps_reviewer() {
    let (ev, dm) = handle_pull_request(&config(), "o/app", &pr("review_requested", false, Some("octocat"))).unwrap();
    assert_eq!(dm.as_deref(), Some("ou_123"));
    assert!(matches!(ev, Event::PrReviewRequested { ref reviewer, ref reviewer_lark_id, .. }
        if reviewer == "octocat" && reviewer_lark_id.as_deref() == Some("ou_123")));
    let (_, dm) = handle_pull_request(&config(), "o/app", &pr("review_requested", false, Some("bob"))).unwrap();
    assert!(dm.is_none());
    assert!(handle_pull_request(&config(), "o/app", &pr("review_requested", false, None)).is_none());
}

#[test]
fn pr_merged_and_closed() {
    let (ev, _) = handle_pull_request(&config(), "o/app", &pr("closed", true, None)).unwrap();
    assert!(matches!(ev, Event::PrMerged { ref merged_by, .. } if merged_by == "alice"));
    assert!(handle_pull_request(&config(), "o/app", &pr("closed", false, None)).is_none());
    assert!(handle_pull_request(&config(), "o/app", &pr("edited", false, None)).is_none());
}

fn issues(action: &str, label: Option<&str>) -> IssuesPayload {
    IssuesPayload {
        action: action.into(),
        label: label.map(|l| Label { name: l.into() }),
        issue: Issue { number: 7, title: "Crash".into(), user: user("carol"), html_url: "https://github.com/o/app/issues/7".into() },
    }
}

#[test]
fn issue_label_alerts() {
    let ev = handle_issues(&config(), "o/app", &issues("labeled", Some("BUG"))).unwrap();
    assert!(matches!(ev, Event::IssueLabeledAlert { ref label, number: 7, .. } if label == "BUG"));
    assert!(handle_issues(&config(), "o/app", &issues("labeled", Some("docs"))).is_none());
    assert!(handle_issues(&config(), "o/app", &issues("opened", Some("bug"))).is_none());
    assert!(handle_issues(&config(), "o/app", &issues("labeled", None)).is_none());
}

fn commit(id: &str, msg: &str) -> Commit {
    Commit { id: id.into(), message: msg.into(), author: CommitUser { name: "dev".into() } }
}

#[test]
fn push_to_protected_branch() {
    let commits: Vec<Commit> = (0..7).map(|i| commit(&format!("abcdef{i}0123"), "line one\nline two")).collect();
    let p = PushPayload { ref_name: "refs/heads/main".into(), commits, pusher: CommitUser { name: "pat".into() }, compare: "https://c".into() };
    match handle_push("o/app", &p).unwrap() {
        Event::BranchPush { branch, commits, pusher, .. } => {
            assert_eq!(branch, "main");
            assert_eq!(pusher, "pat");
            assert_eq!(commits.len(), 5);
            assert_eq!(commits[0].sha_short, "abcdef0");
            assert_eq!(commits[0].message_line, "line one");
        }
        _ => panic!("wrong event"),
    }
    let p = PushPayload { ref_name: "refs/heads/dev".into(), commits: vec![], pusher: CommitUser { name: "pat".into() }, compare: "x".into() };
    assert!(handle_push("o/app", &p).is_none());
}

#[test]
fn workflow_runs() {
    let run = |action: &str, conclusion: Option<&str>| WorkflowRunPayload {
        action: action.into(),
        workflow_run: WorkflowRunData {
            conclusion: conclusion.map(|c| c.into()),
            name: "CI".into(),
            head_branch: "main".into(),
            actor: user("dev"),
            html_url: "https://run".into(),
        },
    };
    assert!(matches!(handle_workflow_run("o/app", &run("completed", Some("failure"))),
        Some(Event::WorkflowRunFailed { ref conclusion, .. }) if conclusion == "failure"));
    assert!(handle_workflow_run("o/app", &run("completed", Some("success"))).is_none());
    assert!(handle_workflow_run("o/app", &run("completed", None)).is_none());
    assert!(handle_workflow_run("o/app", &run("requested", Some("failure"))).is_none());
}

#[test]
fn secret_scanning_alerts() {
    let p = |action: &str, display: Option<&str>| SecretScanningPayload {
        action: action.into(),
        alert: SecretScanningAlertData { secret_type_display_name: display.map(|d| d.into()), secret_type: "aws_key".into(), html_url: "https://a".into() },
    };
    assert!(matches!(handle_secret_scanning("o/app", &p("created", Some("AWS Key"))),
        Some(Event::SecretScanningAlert { ref secret_type, .. }) if secret_type == "AWS Key"));
    assert!(matches!(handle_secret_scanning("o/app", &p("created", None)),
        Some(Event::SecretScanningAlert { ref secret_type, .. }) if secret_type == "aws_key"));
    assert!(handle_secret_scanning("o/app", &p("resolved", None)).is_none());
}

#[test]
fn dependabot_alerts() {
    let p = |action: &str, severity: &str, pkg: bool| DependabotPayload {
        action: action.into(),
        alert: DependabotAlertData {
            severity: severity.into(),
            dependency: Some(DependabotDependency { package: if pkg { Some(DependabotPackage { name: "lodash".into() }) } else { None } }),
            security_advisory: None,
            html_url: "https://d".into(),
        },
    };
    match handle_dependabot("o/app", &p("created", "HIGH", true)).unwrap() {
        Event::DependabotAlert { package, severity, summary, .. } => {
            assert_eq!(package, "lodash");
            assert_eq!(severity, "high");
            assert_eq!(summary, "No summary available");
        }
        _ => panic!("wrong event"),
    }
    assert!(matches!(handle_dependabot("o/app", &p("created", "critical", false)),
        Some(Event::DependabotAlert { ref package, .. }) if package == "unknown"));
    assert!(handle_dependabot("o/app", &p("created", "moderate", true)).is_none());
    assert!(handle_dependabot("o/app", &p("dismissed", "high", true)).is_none());
    let with_summary = DependabotPayload {
        action: "created".into(),
        alert: DependabotAlertData { severity: "high".into(), dependency: None, security_advisory: Some(DependabotAdvisory { summary: "RCE".into() }), html_url: "x".into() },
    };
    assert!(matches!(handle_dependabot("o/app", &with_summary),
        Some(Event::DependabotAlert { ref summary, .. }) if summary == "RCE"));
}
