//! GitHub webhooks: which deliveries become events, and what those events
//! hold.

use vstd::prelude::*;

use crate::config::GitHubConfig;
use crate::utils::{spec_hmac_hex_valid, verify_hmac_sha256};
use vstd::string::StringSliceAdditionalSpecFns;
use vstd::utf8::encode_utf8;
use crate::event::{CommitSummary, CommitView, Event, EventView};
use crate::text::{
    contains_str, first_line, is_prefix, spec_first_line, spec_lowercase, spec_strip_prefix,
    spec_take_chars, starts_with, str_eq, string_views, strip_prefix, take_chars, to_lowercase,
};

verus! {

broadcast use vstd::string::group_string_axioms;

/// At most this many commits of a push are listed.
pub const MAX_COMMITS: usize = 5;

// ---------------------------------------------------------------------------
// Payloads
// ---------------------------------------------------------------------------

/// A `pull_request` delivery.
#[derive(Debug)]
pub struct PrPayload {
    pub action: String,
    pub number: u64,
    pub pull_request: PullRequest,
    pub requested_reviewer: Option<User>,
}

#[derive(Debug)]
pub struct PullRequest {
    pub title: Option<String>,
    pub user: Option<User>,
    pub html_url: Option<String>,
    pub head: GitRef,
    pub base: GitRef,
    pub additions: Option<u64>,
    pub deletions: Option<u64>,
    pub merged_at: Option<String>,
    pub merged_by: Option<User>,
}

#[derive(Debug)]
pub struct User {
    pub login: String,
}

/// A branch reference (`"ref"` in the payload).
#[derive(Debug)]
pub struct GitRef {
    pub ref_name: String,
}

/// An `issues` delivery.
#[derive(Debug)]
pub struct IssuesPayload {
    pub action: String,
    pub label: Option<Label>,
    pub issue: Issue,
}

#[derive(Debug)]
pub struct Label {
    pub name: String,
}

#[derive(Debug)]
pub struct Issue {
    pub number: u64,
    pub title: String,
    pub user: User,
    pub html_url: String,
}

/// A `push` delivery.
#[derive(Debug)]
pub struct PushPayload {
    pub ref_name: String,
    pub commits: Vec<Commit>,
    pub pusher: CommitUser,
    pub compare: String,
}

#[derive(Debug)]
pub struct Commit {
    pub id: String,
    pub message: String,
    pub author: CommitUser,
}

#[derive(Debug)]
pub struct CommitUser {
    pub name: String,
}

/// A `workflow_run` delivery.
#[derive(Debug)]
pub struct WorkflowRunPayload {
    pub action: String,
    pub workflow_run: WorkflowRunData,
}

#[derive(Debug)]
pub struct WorkflowRunData {
    pub conclusion: Option<String>,
    pub name: String,
    pub head_branch: String,
    pub actor: User,
    pub html_url: String,
}

/// A `secret_scanning_alert` delivery.
#[derive(Debug)]
pub struct SecretScanningPayload {
    pub action: String,
    pub alert: SecretScanningAlertData,
}

#[derive(Debug)]
pub struct SecretScanningAlertData {
    pub secret_type_display_name: Option<String>,
    pub secret_type: String,
    pub html_url: String,
}

/// A `dependabot_alert` delivery.
#[derive(Debug)]
pub struct DependabotPayload {
    pub action: String,
    pub alert: DependabotAlertData,
}

#[derive(Debug)]
pub struct DependabotAlertData {
    pub severity: String,
    pub dependency: Option<DependabotDependency>,
    pub security_advisory: Option<DependabotAdvisory>,
    pub html_url: String,
}

#[derive(Debug)]
pub struct DependabotDependency {
    pub package: Option<DependabotPackage>,
}

#[derive(Debug)]
pub struct DependabotPackage {
    pub name: String,
}

#[derive(Debug)]
pub struct DependabotAdvisory {
    pub summary: String,
}

// ---------------------------------------------------------------------------
// Small helpers
// ---------------------------------------------------------------------------

/// The characters of an optional string, `""` when absent.
pub open spec fn or_empty(s: Option<String>) -> Seq<char> {
    match s {
        Some(t) => t@,
        None => Seq::empty(),
    }
}

/// The login of an optional user, `""` when absent.
pub open spec fn login_or_empty(u: Option<User>) -> Seq<char> {
    match u {
        Some(v) => v.login@,
        None => Seq::empty(),
    }
}

fn owned_or_empty(s: &Option<String>) -> (t: String)
    ensures
        t@ == or_empty(*s),
{
    match s {
        Some(v) => v.clone(),
        None => String::new(),
    }
}

fn login_of(u: &Option<User>) -> (t: String)
    ensures
        t@ == login_or_empty(*u),
{
    match u {
        Some(v) => v.login.clone(),
        None => String::new(),
    }
}

/// The views of an event to dispatch and an optional DM recipient.
pub open spec fn dispatch_view(r: Option<(Event, Option<String>)>) -> Option<(EventView, Option<Seq<char>>)> {
    match r {
        Some((e, dm)) => Some((e@, crate::event::opt_str(dm))),
        None => None,
    }
}

/// The view of an optional event.
pub open spec fn event_view(r: Option<Event>) -> Option<EventView> {
    match r {
        Some(e) => Some(e@),
        None => None,
    }
}

// ---------------------------------------------------------------------------
// Signature
// ---------------------------------------------------------------------------

/// Whether an `X-Hub-Signature-256` header value (`sha256=<hex>`) signs
/// `body` under `secret`.
pub open spec fn spec_github_signature_valid(secret: Seq<u8>, body: Seq<u8>, header: Seq<char>) -> bool {
    match spec_strip_prefix(header, "sha256="@) {
        Some(hex) => spec_hmac_hex_valid(secret, body, encode_utf8(hex)),
        None => false,
    }
}

/// Verifies the `X-Hub-Signature-256` header.
///
/// GitHub sends the signature as `sha256=<hex>`. This strips the prefix
/// and delegates to the shared HMAC verifier.
pub fn verify_github_signature(secret: &str, body: &[u8], header_value: &str) -> (b: bool)
    ensures
        b == spec_github_signature_valid(secret.spec_bytes(), body@, header_value@),
{
    match strip_prefix(header_value, "sha256=") {
        Some(hex_sig) => verify_hmac_sha256(secret, body, hex_sig),
        None => false,
    }
}

/// A GitHub signature header is `sha256=` followed by the hex tag that the
/// Linear-style HMAC check accepts, and nothing without that prefix passes.
pub proof fn law_github_signature_delegates(secret: Seq<u8>, body: Seq<u8>, hex: Seq<char>, header: Seq<char>)
    ensures
        spec_github_signature_valid(secret, body, "sha256="@ + hex) == spec_hmac_hex_valid(
            secret,
            body,
            encode_utf8(hex),
        ),
        !is_prefix("sha256="@, header) ==> !spec_github_signature_valid(secret, body, header),
{
    let h = "sha256="@ + hex;
    assert(h.take(7) =~= "sha256="@) by {
        reveal_strlit("sha256=");
    }
    assert(h.skip(7) =~= hex) by {
        reveal_strlit("sha256=");
    }
    reveal_strlit("sha256=");
}

// ---------------------------------------------------------------------------
// Branches and repositories
// ---------------------------------------------------------------------------

/// The short branch name of a git ref.
pub open spec fn spec_branch_from_ref(git_ref: Seq<char>) -> Seq<char> {
    match spec_strip_prefix(git_ref, "refs/heads/"@) {
        Some(b) => b,
        None => git_ref,
    }
}

/// Extracts the short branch name from a full git ref
/// (e.g. `"refs/heads/main"` → `"main"`).
pub fn branch_from_ref(git_ref: &str) -> (b: &str)
    ensures
        b@ == spec_branch_from_ref(git_ref@),
{
    match strip_prefix(git_ref, "refs/heads/") {
        Some(b) => b,
        None => git_ref,
    }
}

/// Pushes to `main`, `master` and `release*` branches are announced.
pub open spec fn spec_is_protected_branch(branch: Seq<char>) -> bool {
    branch == "main"@ || branch == "master"@ || is_prefix("release"@, branch)
}

/// Whether pushes to `branch` are announced.
pub fn is_protected_branch(branch: &str) -> (b: bool)
    ensures
        b == spec_is_protected_branch(branch@),
{
    str_eq(branch, "main") || str_eq(branch, "master") || starts_with(branch, "release")
}

/// A delivery from `repo_name` is dropped when a whitelist is configured,
/// the name is known, and the whitelist does not list it.
pub open spec fn spec_repo_ignored(whitelist: Seq<Seq<char>>, repo_name: Seq<char>) -> bool {
    whitelist.len() > 0 && repo_name.len() > 0 && !whitelist.contains(repo_name)
}

/// Whether a delivery from `repo_name` is dropped by the whitelist.
pub fn is_repo_ignored(whitelist: &[String], repo_name: &str) -> (b: bool)
    ensures
        b == spec_repo_ignored(string_views(whitelist@), repo_name@),
{
    whitelist.len() > 0 && repo_name.unicode_len() > 0 && !contains_str(whitelist, repo_name)
}

/// The `(display name, whitelist name)` of the repository of a delivery:
/// the full name (or the short name when it is missing) and the short name;
/// two empty strings when the payload names no repository.
pub fn repo_names(name: Option<String>, full_name: Option<String>) -> (r: (String, String))
    ensures
        name is None ==> r.0@.len() == 0 && r.1@.len() == 0,
        name matches Some(n) ==> r.1@ == n@ && r.0@ == match full_name {
            Some(f) => f@,
            None => n@,
        },
{
    match name {
        None => (String::new(), String::new()),
        Some(n) => {
            let display = match full_name {
                Some(f) => f,
                None => n.clone(),
            };
            (display, n)
        },
    }
}

/// The kinds of delivery that the relay handles.
#[derive(Clone, Copy, Debug, PartialEq, Eq, Structural)]
pub enum GitHubEventKind {
    PullRequest,
    Issues,
    Push,
    WorkflowRun,
    SecretScanningAlert,
    DependabotAlert,
    Other,
}

/// The kind named by an `X-GitHub-Event` header value.
pub open spec fn spec_event_kind(event_type: Seq<char>) -> GitHubEventKind {
    if event_type == "pull_request"@ {
        GitHubEventKind::PullRequest
    } else if event_type == "issues"@ {
        GitHubEventKind::Issues
    } else if event_type == "push"@ {
        GitHubEventKind::Push
    } else if event_type == "workflow_run"@ {
        GitHubEventKind::WorkflowRun
    } else if event_type == "secret_scanning_alert"@ {
        GitHubEventKind::SecretScanningAlert
    } else if event_type == "dependabot_alert"@ {
        GitHubEventKind::DependabotAlert
    } else {
        GitHubEventKind::Other
    }
}

/// Classifies an `X-GitHub-Event` header value.
pub fn classify_event_type(event_type: &str) -> (k: GitHubEventKind)
    ensures
        k == spec_event_kind(event_type@),
{
    if str_eq(event_type, "pull_request") {
        GitHubEventKind::PullRequest
    } else if str_eq(event_type, "issues") {
        GitHubEventKind::Issues
    } else if str_eq(event_type, "push") {
        GitHubEventKind::Push
    } else if str_eq(event_type, "workflow_run") {
        GitHubEventKind::WorkflowRun
    } else if str_eq(event_type, "secret_scanning_alert") {
        GitHubEventKind::SecretScanningAlert
    } else if str_eq(event_type, "dependabot_alert") {
        GitHubEventKind::DependabotAlert
    } else {
        GitHubEventKind::Other
    }
}


// ---------------------------------------------------------------------------
// pull_request
// ---------------------------------------------------------------------------

/// The event (and DM recipient) of a `pull_request` delivery: opened PRs;
/// requests that name the requested person, who also gets a direct message
/// when the user map knows them; and merges. Nothing for other actions.
pub open spec fn spec_pull_request(
    user_map: Map<Seq<char>, Seq<char>>,
    repo: Seq<char>,
    p: PrPayload,
) -> Option<(EventView, Option<Seq<char>>)> {
    let pr = p.pull_request;
    let title = or_empty(pr.title);
    let author = login_or_empty(pr.user);
    let url = or_empty(pr.html_url);
    if p.action@ == "opened"@ {
        Some(
            (
                EventView::PrOpened {
                    repo,
                    number: p.number,
                    title,
                    author,
                    head_branch: pr.head.ref_name@,
                    base_branch: pr.base.ref_name@,
                    additions: match pr.additions {
                        Some(a) => a,
                        None => 0,
                    },
                    deletions: match pr.deletions {
                        Some(d) => d,
                        None => 0,
                    },
                    url,
                },
                None,
            ),
        )
    } else if p.action@ == "review_requested"@ {
        match p.requested_reviewer {
            Some(r) => {
                let lark_id = if user_map.contains_key(r.login@) {
                    Some(user_map[r.login@])
                } else {
                    None
                };
                Some(
                    (
                        EventView::PrReviewRequested {
                            repo,
                            number: p.number,
                            title,
                            author,
                            reviewer: r.login@,
                            reviewer_lark_id: lark_id,
                            url,
                        },
                        lark_id,
                    ),
                )
            },
            None => None,
        }
    } else if p.action@ == "closed"@ && pr.merged_at is Some {
        let merged_by = match pr.merged_by {
            Some(u) => u.login@,
            None => author,
        };
        Some(
            (
                EventView::PrMerged { repo, number: p.number, title, author, merged_by, url },
                None,
            ),
        )
    } else {
        None
    }
}

/// A merged pull request is announced as merged by the merger that the
/// payload names, and by its author only when it names none; the author is
/// the login of the PR's user (`""` when absent); nobody gets a DM.
pub proof fn law_pr_merged_by(user_map: Map<Seq<char>, Seq<char>>, repo: Seq<char>, p: PrPayload)
    requires
        p.action@ == "closed"@,
        p.pull_request.merged_at is Some,
    ensures
        spec_pull_request(user_map, repo, p) matches Some(
            (EventView::PrMerged { repo: r, number, author, merged_by, .. }, dm),
        ) && dm is None && r == repo && number == p.number && author == match p.pull_request.user {
            Some(u) => u.login@,
            None => Seq::empty(),
        } && match p.pull_request.merged_by {
            Some(m) => merged_by == m.login@,
            None => merged_by == author,
        },
{
    reveal_strlit("closed");
    reveal_strlit("opened");
    reveal_strlit("review_requested");
    assert("closed"@ != "opened"@) by {
        assert("closed"@[0] != "opened"@[0]);
    }
    assert("closed"@ != "review_requested"@) by {
        assert("closed"@.len() != "review_requested"@.len());
    }
}

fn opt_clone(s: Option<&String>) -> (t: Option<String>)
    ensures
        crate::event::opt_str(t) == match s {
            Some(v) => Some(v@),
            None => None,
        },
{
    match s {
        Some(v) => Some(v.clone()),
        None => None,
    }
}

/// Handles a `pull_request` delivery: the event to dispatch and the user to
/// DM, or `None` when the delivery is ignored.
pub fn handle_pull_request(github: &GitHubConfig, repo: &str, payload: &PrPayload) -> (r: Option<
    (Event, Option<String>),
>)
    ensures
        dispatch_view(r) == spec_pull_request(github.user_map@, repo@, *payload),
{
    let pr = &payload.pull_request;
    let number = payload.number;
    let title = owned_or_empty(&pr.title);
    let author = login_of(&pr.user);
    let html_url = owned_or_empty(&pr.html_url);
    if str_eq(payload.action.as_str(), "opened") {
        let additions = match pr.additions {
            Some(a) => a,
            None => 0,
        };
        let deletions = match pr.deletions {
            Some(d) => d,
            None => 0,
        };
        Some(
            (
                Event::PrOpened {
                    repo: String::from_str(repo),
                    number,
                    title,
                    author,
                    head_branch: pr.head.ref_name.clone(),
                    base_branch: pr.base.ref_name.clone(),
                    additions,
                    deletions,
                    url: html_url,
                },
                None,
            ),
        )
    } else if str_eq(payload.action.as_str(), "review_requested") {
        let reviewer = match &payload.requested_reviewer {
            Some(u) => u.login.clone(),
            None => return None,
        };
        let reviewer_lark_id = opt_clone(github.user_map.get(reviewer.as_str()));
        let dm_email = opt_clone(github.user_map.get(reviewer.as_str()));
        Some(
            (
                Event::PrReviewRequested {
                    repo: String::from_str(repo),
                    number,
                    title,
                    author,
                    reviewer,
                    reviewer_lark_id,
                    url: html_url,
                },
                dm_email,
            ),
        )
    } else if str_eq(payload.action.as_str(), "closed") && pr.merged_at.is_some() {
        let merged_by = match &pr.merged_by {
            Some(u) => u.login.clone(),
            None => author.clone(),
        };
        Some(
            (
                Event::PrMerged {
                    repo: String::from_str(repo),
                    number,
                    title,
                    author,
                    merged_by,
                    url: html_url,
                },
                None,
            ),
        )
    } else {
        None
    }
}

// ---------------------------------------------------------------------------
// issues
// ---------------------------------------------------------------------------

/// The event of an `issues` delivery: an alert when a label whose lowercase
/// form is an alert label is added; nothing otherwise.
pub open spec fn spec_issues(alert_labels: Seq<Seq<char>>, repo: Seq<char>, p: IssuesPayload) -> Option<EventView> {
    if p.action@ != "labeled"@ {
        None
    } else {
        match p.label {
            Some(l) => if alert_labels.contains(spec_lowercase(l.name@)) {
                Some(
                    EventView::IssueLabeledAlert {
                        repo,
                        number: p.issue.number,
                        title: p.issue.title@,
                        label: l.name@,
                        author: p.issue.user.login@,
                        url: p.issue.html_url@,
                    },
                )
            } else {
                None
            },
            None => None,
        }
    }
}

/// Handles an `issues` delivery.
pub fn handle_issues(github: &GitHubConfig, repo: &str, payload: &IssuesPayload) -> (r: Option<Event>)
    ensures
        event_view(r) == spec_issues(string_views(github.alert_labels@), repo@, *payload),
{
    if !str_eq(payload.action.as_str(), "labeled") {
        return None;
    }
    let label = match &payload.label {
        Some(l) => l.name.clone(),
        None => return None,
    };
    let lower = to_lowercase(label.as_str());
    if !contains_str(github.alert_labels.as_slice(), lower.as_str()) {
        return None;
    }
    let issue = &payload.issue;
    Some(
        Event::IssueLabeledAlert {
            repo: String::from_str(repo),
            number: issue.number,
            title: issue.title.clone(),
            label,
            author: issue.user.login.clone(),
            url: issue.html_url.clone(),
        },
    )
}

// ---------------------------------------------------------------------------
// push
// ---------------------------------------------------------------------------

/// The summary of a commit: the first 7 characters of its id, the first line
/// of its message and its author.
pub open spec fn spec_commit_summary(c: Commit) -> CommitView {
    CommitView {
        sha_short: spec_take_chars(c.id@, 7),
        message_line: spec_first_line(c.message@),
        author: c.author.name@,
    }
}

/// The summaries of the first (at most) `MAX_COMMITS` commits.
pub open spec fn spec_commit_summaries(commits: Seq<Commit>) -> Seq<CommitView> {
    let n = if commits.len() <= 5 {
        commits.len() as int
    } else {
        5
    };
    commits.take(n).map_values(|c: Commit| spec_commit_summary(c))
}

/// The event of a `push` delivery: pushes to protected branches only.
pub open spec fn spec_push(repo: Seq<char>, p: PushPayload) -> Option<EventView> {
    let branch = spec_branch_from_ref(p.ref_name@);
    if spec_is_protected_branch(branch) {
        Some(
            EventView::BranchPush {
                repo,
                branch,
                pusher: p.pusher.name@,
                commits: spec_commit_summaries(p.commits@),
                compare_url: p.compare@,
            },
        )
    } else {
        None
    }
}

/// Summarizes one commit.
pub fn summarize_commit(c: &Commit) -> (s: CommitSummary)
    ensures
        s@ == spec_commit_summary(*c),
{
    CommitSummary {
        sha_short: take_chars(c.id.as_str(), 7),
        message_line: String::from_str(first_line(c.message.as_str())),
        author: c.author.name.clone(),
    }
}

/// Handles a `push` delivery.
pub fn handle_push(repo: &str, payload: &PushPayload) -> (r: Option<Event>)
    ensures
        event_view(r) == spec_push(repo@, *payload),
{
    let branch = branch_from_ref(payload.ref_name.as_str());
    if !is_protected_branch(branch) {
        return None;
    }
    let n = if payload.commits.len() <= MAX_COMMITS {
        payload.commits.len()
    } else {
        MAX_COMMITS
    };
    let mut commits: Vec<CommitSummary> = Vec::new();
    let mut i: usize = 0;
    while i < n
        invariant
            n <= payload.commits@.len(),
            n == if payload.commits@.len() <= 5 {
                payload.commits@.len() as int
            } else {
                5
            },
            i <= n,
            commits@.map_values(|c: CommitSummary| c@) == payload.commits@.take(i as int).map_values(
                |c: Commit| spec_commit_summary(c),
            ),
        decreases n - i,
    {
        let summary = summarize_commit(&payload.commits[i]);
        let ghost sv = summary@;
        let ghost before = commits@;
        commits.push(summary);
        proof {
            assert(commits@ == before.push(summary));
            assert(commits@.map_values(|c: CommitSummary| c@) =~= before.map_values(
                |c: CommitSummary| c@,
            ).push(sv));
            assert(payload.commits@.take(i + 1).map_values(|c: Commit| spec_commit_summary(c))
                =~= payload.commits@.take(i as int).map_values(
                |c: Commit| spec_commit_summary(c),
            ).push(spec_commit_summary(payload.commits@[i as int])));
        }
        i = i + 1;
    }
    Some(
        Event::BranchPush {
            repo: String::from_str(repo),
            branch: String::from_str(branch),
            pusher: payload.pusher.name.clone(),
            commits,
            compare_url: payload.compare.clone(),
        },
    )
}

// ---------------------------------------------------------------------------
// workflow_run, secret_scanning_alert, dependabot_alert
// ---------------------------------------------------------------------------

/// The event of a `workflow_run` delivery: completed runs that failed.
pub open spec fn spec_workflow_run(repo: Seq<char>, p: WorkflowRunPayload) -> Option<EventView> {
    let run = p.workflow_run;
    let conclusion = match run.conclusion {
        Some(c) => c@,
        None => "unknown"@,
    };
    if p.action@ == "completed"@ && conclusion == "failure"@ {
        Some(
            EventView::WorkflowRunFailed {
                repo,
                workflow_name: run.name@,
                branch: run.head_branch@,
                actor: run.actor.login@,
                conclusion,
                url: run.html_url@,
            },
        )
    } else {
        None
    }
}

/// Handles a `workflow_run` delivery.
pub fn handle_workflow_run(repo: &str, payload: &WorkflowRunPayload) -> (r: Option<Event>)
    ensures
        event_view(r) == spec_workflow_run(repo@, *payload),
{
    if !str_eq(payload.action.as_str(), "completed") {
        return None;
    }
    let run = &payload.workflow_run;
    let conclusion = match &run.conclusion {
        Some(c) => c.clone(),
        None => String::from_str("unknown"),
    };
    if !str_eq(conclusion.as_str(), "failure") {
        return None;
    }
    Some(
        Event::WorkflowRunFailed {
            repo: String::from_str(repo),
            workflow_name: run.name.clone(),
            branch: run.head_branch.clone(),
            actor: run.actor.login.clone(),
            conclusion,
            url: run.html_url.clone(),
        },
    )
}

/// The event of a `secret_scanning_alert` delivery: new alerts, named by
/// their display name when there is one.
pub open spec fn spec_secret_scanning(repo: Seq<char>, p: SecretScanningPayload) -> Option<EventView> {
    if p.action@ == "created"@ {
        Some(
            EventView::SecretScanningAlert {
                repo,
                secret_type: match p.alert.secret_type_display_name {
                    Some(d) => d@,
                    None => p.alert.secret_type@,
                },
                url: p.alert.html_url@,
            },
        )
    } else {
        None
    }
}

/// Handles a `secret_scanning_alert` delivery.
pub fn handle_secret_scanning(repo: &str, payload: &SecretScanningPayload) -> (r: Option<Event>)
    ensures
        event_view(r) == spec_secret_scanning(repo@, *payload),
{
    if !str_eq(payload.action.as_str(), "created") {
        return None;
    }
    let alert = &payload.alert;
    let secret_type = match &alert.secret_type_display_name {
        Some(d) => d.clone(),
        None => alert.secret_type.clone(),
    };
    Some(
        Event::SecretScanningAlert {
            repo: String::from_str(repo),
            secret_type,
            url: alert.html_url.clone(),
        },
    )
}

/// The event of a `dependabot_alert` delivery: new alerts whose lowercase
/// severity is `critical` or `high`.
pub open spec fn spec_dependabot(repo: Seq<char>, p: DependabotPayload) -> Option<EventView> {
    let alert = p.alert;
    let severity = spec_lowercase(alert.severity@);
    if p.action@ == "created"@ && (severity == "critical"@ || severity == "high"@) {
        Some(
            EventView::DependabotAlert {
                repo,
                package: match alert.dependency {
                    Some(d) => match d.package {
                        Some(pk) => pk.name@,
                        None => "unknown"@,
                    },
                    None => "unknown"@,
                },
                severity,
                summary: match alert.security_advisory {
                    Some(a) => a.summary@,
                    None => "No summary available"@,
                },
                url: alert.html_url@,
            },
        )
    } else {
        None
    }
}

/// Handles a `dependabot_alert` delivery.
pub fn handle_dependabot(repo: &str, payload: &DependabotPayload) -> (r: Option<Event>)
    ensures
        event_view(r) == spec_dependabot(repo@, *payload),
{
    if !str_eq(payload.action.as_str(), "created") {
        return None;
    }
    let alert = &payload.alert;
    let severity = to_lowercase(alert.severity.as_str());
    if !str_eq(severity.as_str(), "critical") && !str_eq(severity.as_str(), "high") {
        return None;
    }
    let package = match &alert.dependency {
        Some(d) => match &d.package {
            Some(pk) => pk.name.clone(),
            None => String::from_str("unknown"),
        },
        None => String::from_str("unknown"),
    };
    let summary = match &alert.security_advisory {
        Some(a) => a.summary.clone(),
        None => String::from_str("No summary available"),
    };
    Some(
        Event::DependabotAlert {
            repo: String::from_str(repo),
            package,
            severity,
            summary,
            url: alert.html_url.clone(),
        },
    )
}

} // verus!
