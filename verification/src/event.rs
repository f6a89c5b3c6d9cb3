//! Unified event model: the layer between sources and sinks.
//!
//! Every source converts its platform-specific payload into an [`Event`],
//! which sinks consume without knowing the origin.

use vstd::prelude::*;

verus! {

/// Issue priority level, normalized across all sources.
#[derive(Clone, Copy, Debug, PartialEq, Eq, Structural)]
pub enum Priority {
    NoPriority,
    Urgent,
    High,
    Medium,
    Low,
}

/// The priority that a Linear numeric priority stands for.
pub open spec fn spec_priority_from_linear(value: u8) -> Priority {
    if value == 1 {
        Priority::Urgent
    } else if value == 2 {
        Priority::High
    } else if value == 3 {
        Priority::Medium
    } else if value == 4 {
        Priority::Low
    } else {
        Priority::NoPriority
    }
}

impl Priority {
    /// Human-readable label of a priority.
    pub open spec fn spec_label(self) -> Seq<char> {
        match self {
            Priority::Urgent => "Urgent"@,
            Priority::High => "High"@,
            Priority::Medium => "Medium"@,
            Priority::Low => "Low"@,
            Priority::NoPriority => "None"@,
        }
    }

    /// Colored circle emoji of a priority.
    pub open spec fn spec_emoji(self) -> Seq<char> {
        match self {
            Priority::Urgent => "🔴"@,
            Priority::High => "🟠"@,
            Priority::Medium => "🟡"@,
            Priority::Low => "🔵"@,
            Priority::NoPriority => "⚪"@,
        }
    }

    /// `"{emoji} {label}"`.
    pub open spec fn spec_display(self) -> Seq<char> {
        self.spec_emoji() + " "@ + self.spec_label()
    }

    /// The Linear numeric priority of a priority level.
    pub open spec fn spec_to_linear(self) -> u8 {
        match self {
            Priority::NoPriority => 0,
            Priority::Urgent => 1,
            Priority::High => 2,
            Priority::Medium => 3,
            Priority::Low => 4,
        }
    }

    /// The Linear numeric priority (`0`–`4`) of a priority level.
    pub fn to_linear(&self) -> (v: u8)
        ensures
            v == self.spec_to_linear(),
    {
        match self {
            Priority::NoPriority => 0,
            Priority::Urgent => 1,
            Priority::High => 2,
            Priority::Medium => 3,
            Priority::Low => 4,
        }
    }

    /// Convert a Linear numeric priority (`0`–`4`) to [`Priority`].
    pub fn from_linear(value: u8) -> (p: Self)
        ensures
            p == spec_priority_from_linear(value),
    {
        match value {
            1 => Priority::Urgent,
            2 => Priority::High,
            3 => Priority::Medium,
            4 => Priority::Low,
            _ => Priority::NoPriority,
        }
    }

    /// Human-readable label (e.g. `"Urgent"`).
    pub fn label(&self) -> (s: &'static str)
        ensures
            s@ == self.spec_label(),
    {
        match self {
            Priority::Urgent => "Urgent",
            Priority::High => "High",
            Priority::Medium => "Medium",
            Priority::Low => "Low",
            Priority::NoPriority => "None",
        }
    }

    /// Colored circle emoji for display.
    pub fn emoji(&self) -> (s: &'static str)
        ensures
            s@ == self.spec_emoji(),
    {
        match self {
            Priority::Urgent => "🔴",
            Priority::High => "🟠",
            Priority::Medium => "🟡",
            Priority::Low => "🔵",
            Priority::NoPriority => "⚪",
        }
    }

    /// `"{emoji} {label}"` combined string.
    pub fn display(&self) -> (s: String)
        ensures
            s@ == self.spec_display(),
    {
        let s = String::from_str(self.emoji());
        let s = s.concat(" ");
        s.concat(self.label())
    }
}


/// Abbreviated commit info for push events.
#[derive(Clone, Debug)]
pub struct CommitSummary {
    pub sha_short: String,
    pub message_line: String,
    pub author: String,
}

/// A normalized event produced by a source and consumed by sinks.
#[derive(Debug)]
pub enum Event {
    // --- Linear events ---
    IssueCreated {
        source: String,
        identifier: String,
        title: String,
        description: Option<String>,
        status: String,
        priority: Priority,
        assignee: Option<String>,
        assignee_email: Option<String>,
        url: String,
        changes: Vec<String>,
    },
    IssueUpdated {
        source: String,
        identifier: String,
        title: String,
        description: Option<String>,
        status: String,
        priority: Priority,
        assignee: Option<String>,
        assignee_email: Option<String>,
        url: String,
        changes: Vec<String>,
    },
    CommentCreated {
        source: String,
        identifier: String,
        issue_title: String,
        author: String,
        body: String,
        url: String,
    },
    // --- GitHub events ---
    PrOpened {
        repo: String,
        number: u64,
        title: String,
        author: String,
        head_branch: String,
        base_branch: String,
        additions: u64,
        deletions: u64,
        url: String,
    },
    PrReviewRequested {
        repo: String,
        number: u64,
        title: String,
        author: String,
        reviewer: String,
        reviewer_lark_id: Option<String>,
        url: String,
    },
    PrMerged {
        repo: String,
        number: u64,
        title: String,
        author: String,
        merged_by: String,
        url: String,
    },
    IssueLabeledAlert {
        repo: String,
        number: u64,
        title: String,
        label: String,
        author: String,
        url: String,
    },
    BranchPush {
        repo: String,
        branch: String,
        pusher: String,
        commits: Vec<CommitSummary>,
        compare_url: String,
    },
    WorkflowRunFailed {
        repo: String,
        workflow_name: String,
        branch: String,
        actor: String,
        conclusion: String,
        url: String,
    },
    SecretScanningAlert {
        repo: String,
        secret_type: String,
        url: String,
    },
    DependabotAlert {
        repo: String,
        package: String,
        severity: String,
        summary: String,
        url: String,
    },
}

/// The mathematical value of a [`CommitSummary`].
pub struct CommitView {
    pub sha_short: Seq<char>,
    pub message_line: Seq<char>,
    pub author: Seq<char>,
}

impl View for CommitSummary {
    type V = CommitView;

    open spec fn view(&self) -> CommitView {
        CommitView {
            sha_short: self.sha_short@,
            message_line: self.message_line@,
            author: self.author@,
        }
    }
}

/// The view of an optional string.
pub open spec fn opt_str(s: Option<String>) -> Option<Seq<char>> {
    match s {
        Some(t) => Some(t@),
        None => None,
    }
}

/// The views of a sequence of strings.
pub open spec fn str_seq(v: Seq<String>) -> Seq<Seq<char>> {
    v.map_values(|s: String| s@)
}

/// The mathematical value of an [`Event`]: every string by its characters.
pub enum EventView {
    IssueCreated {
        source: Seq<char>,
        identifier: Seq<char>,
        title: Seq<char>,
        description: Option<Seq<char>>,
        status: Seq<char>,
        priority: Priority,
        assignee: Option<Seq<char>>,
        assignee_email: Option<Seq<char>>,
        url: Seq<char>,
        changes: Seq<Seq<char>>,
    },
    IssueUpdated {
        source: Seq<char>,
        identifier: Seq<char>,
        title: Seq<char>,
        description: Option<Seq<char>>,
        status: Seq<char>,
        priority: Priority,
        assignee: Option<Seq<char>>,
        assignee_email: Option<Seq<char>>,
        url: Seq<char>,
        changes: Seq<Seq<char>>,
    },
    CommentCreated {
        source: Seq<char>,
        identifier: Seq<char>,
        issue_title: Seq<char>,
        author: Seq<char>,
        body: Seq<char>,
        url: Seq<char>,
    },
    PrOpened {
        repo: Seq<char>,
        number: u64,
        title: Seq<char>,
        author: Seq<char>,
        head_branch: Seq<char>,
        base_branch: Seq<char>,
        additions: u64,
        deletions: u64,
        url: Seq<char>,
    },
    PrReviewRequested {
        repo: Seq<char>,
        number: u64,
        title: Seq<char>,
        author: Seq<char>,
        reviewer: Seq<char>,
        reviewer_lark_id: Option<Seq<char>>,
        url: Seq<char>,
    },
    PrMerged {
        repo: Seq<char>,
        number: u64,
        title: Seq<char>,
        author: Seq<char>,
        merged_by: Seq<char>,
        url: Seq<char>,
    },
    IssueLabeledAlert {
        repo: Seq<char>,
        number: u64,
        title: Seq<char>,
        label: Seq<char>,
        author: Seq<char>,
        url: Seq<char>,
    },
    BranchPush {
        repo: Seq<char>,
        branch: Seq<char>,
        pusher: Seq<char>,
        commits: Seq<CommitView>,
        compare_url: Seq<char>,
    },
    WorkflowRunFailed {
        repo: Seq<char>,
        workflow_name: Seq<char>,
        branch: Seq<char>,
        actor: Seq<char>,
        conclusion: Seq<char>,
        url: Seq<char>,
    },
    SecretScanningAlert { repo: Seq<char>, secret_type: Seq<char>, url: Seq<char> },
    DependabotAlert {
        repo: Seq<char>,
        package: Seq<char>,
        severity: Seq<char>,
        summary: Seq<char>,
        url: Seq<char>,
    },
}

impl View for Event {
    type V = EventView;

    open spec fn view(&self) -> EventView {
        match self {
            Event::IssueCreated {
                source, identifier, title, description, status, priority, assignee,
                assignee_email, url, changes,
            } => EventView::IssueCreated {
                source: source@,
                identifier: identifier@,
                title: title@,
                description: opt_str(*description),
                status: status@,
                priority: *priority,
                assignee: opt_str(*assignee),
                assignee_email: opt_str(*assignee_email),
                url: url@,
                changes: str_seq(changes@),
            },
            Event::IssueUpdated {
                source, identifier, title, description, status, priority, assignee,
                assignee_email, url, changes,
            } => EventView::IssueUpdated {
                source: source@,
                identifier: identifier@,
                title: title@,
                description: opt_str(*description),
                status: status@,
                priority: *priority,
                assignee: opt_str(*assignee),
                assignee_email: opt_str(*assignee_email),
                url: url@,
                changes: str_seq(changes@),
            },
            Event::CommentCreated { source, identifier, issue_title, author, body, url } =>
                EventView::CommentCreated {
                source: source@,
                identifier: identifier@,
                issue_title: issue_title@,
                author: author@,
                body: body@,
                url: url@,
            },
            Event::PrOpened {
                repo, number, title, author, head_branch, base_branch, additions, deletions, url,
            } => EventView::PrOpened {
                repo: repo@,
                number: *number,
                title: title@,
                author: author@,
                head_branch: head_branch@,
                base_branch: base_branch@,
                additions: *additions,
                deletions: *deletions,
                url: url@,
            },
            Event::PrReviewRequested {
                repo, number, title, author, reviewer, reviewer_lark_id, url,
            } => EventView::PrReviewRequested {
                repo: repo@,
                number: *number,
                title: title@,
                author: author@,
                reviewer: reviewer@,
                reviewer_lark_id: opt_str(*reviewer_lark_id),
                url: url@,
            },
            Event::PrMerged { repo, number, title, author, merged_by, url } => EventView::PrMerged {
                repo: repo@,
                number: *number,
                title: title@,
                author: author@,
                merged_by: merged_by@,
                url: url@,
            },
            Event::IssueLabeledAlert { repo, number, title, label, author, url } =>
                EventView::IssueLabeledAlert {
                repo: repo@,
                number: *number,
                title: title@,
                label: label@,
                author: author@,
                url: url@,
            },
            Event::BranchPush { repo, branch, pusher, commits, compare_url } =>
                EventView::BranchPush {
                repo: repo@,
                branch: branch@,
                pusher: pusher@,
                commits: commits@.map_values(|c: CommitSummary| c@),
                compare_url: compare_url@,
            },
            Event::WorkflowRunFailed { repo, workflow_name, branch, actor, conclusion, url } =>
                EventView::WorkflowRunFailed {
                repo: repo@,
                workflow_name: workflow_name@,
                branch: branch@,
                actor: actor@,
                conclusion: conclusion@,
                url: url@,
            },
            Event::SecretScanningAlert { repo, secret_type, url } =>
                EventView::SecretScanningAlert {
                repo: repo@,
                secret_type: secret_type@,
                url: url@,
            },
            Event::DependabotAlert { repo, package, severity, summary, url } =>
                EventView::DependabotAlert {
                repo: repo@,
                package: package@,
                severity: severity@,
                summary: summary@,
                url: url@,
            },
        }
    }
}

/// What an issue event says about its issue, apart from its change
/// descriptions.
pub struct IssueSnapshot {
    pub source: Seq<char>,
    pub identifier: Seq<char>,
    pub title: Seq<char>,
    pub description: Option<Seq<char>>,
    pub status: Seq<char>,
    pub priority: Priority,
    pub assignee: Option<Seq<char>>,
    pub assignee_email: Option<Seq<char>>,
    pub url: Seq<char>,
}

/// The issue state of an issue event; `None` for other events.
pub open spec fn issue_snapshot(e: EventView) -> Option<IssueSnapshot> {
    match e {
        EventView::IssueCreated {
            source, identifier, title, description, status, priority, assignee,
            assignee_email, url, ..
        } => Some(
            IssueSnapshot {
                source, identifier, title, description, status, priority, assignee,
                assignee_email, url,
            },
        ),
        EventView::IssueUpdated {
            source, identifier, title, description, status, priority, assignee,
            assignee_email, url, ..
        } => Some(
            IssueSnapshot {
                source, identifier, title, description, status, priority, assignee,
                assignee_email, url,
            },
        ),
        _ => None,
    }
}

/// The change descriptions of an event view (empty for non-issue events).
pub open spec fn view_changes(e: EventView) -> Seq<Seq<char>> {
    match e {
        EventView::IssueCreated { changes, .. } => changes,
        EventView::IssueUpdated { changes, .. } => changes,
        _ => Seq::empty(),
    }
}

/// An event view with its change descriptions replaced (itself for
/// non-issue events).
pub open spec fn view_with_changes(e: EventView, new_changes: Seq<Seq<char>>) -> EventView {
    match e {
        EventView::IssueCreated {
            source, identifier, title, description, status, priority, assignee,
            assignee_email, url, changes,
        } => EventView::IssueCreated {
            source, identifier, title, description, status, priority, assignee,
            assignee_email, url, changes: new_changes,
        },
        EventView::IssueUpdated {
            source, identifier, title, description, status, priority, assignee,
            assignee_email, url, changes,
        } => EventView::IssueUpdated {
            source, identifier, title, description, status, priority, assignee,
            assignee_email, url, changes: new_changes,
        },
        other => other,
    }
}

/// An `IssueUpdated` view turned into an `IssueCreated` one.
pub open spec fn view_promote(e: EventView) -> EventView {
    match e {
        EventView::IssueUpdated {
            source, identifier, title, description, status, priority, assignee,
            assignee_email, url, changes,
        } => EventView::IssueCreated {
            source, identifier, title, description, status, priority, assignee,
            assignee_email, url, changes,
        },
        other => other,
    }
}

/// The views of the spec operations on events agree with the operations on
/// event views.
pub proof fn lemma_event_view_ops(e: Event, c: Vec<String>)
    ensures
        str_seq(e.spec_changes()) == view_changes(e@),
        e.spec_with_changes(c)@ == view_with_changes(e@, str_seq(c@)),
        e.spec_promote()@ == view_promote(e@),
        (e@ is IssueCreated) == (e is IssueCreated),
        (e@ is IssueUpdated) == (e is IssueUpdated),
{
    match e {
        Event::IssueCreated { .. } => {},
        Event::IssueUpdated { .. } => {},
        _ => {
            assert(str_seq(e.spec_changes()) =~= Seq::<Seq<char>>::empty());
        },
    }
}

impl Event {
    /// Whether the event is one of the two Linear issue events, the only ones
    /// that carry change descriptions.
    pub open spec fn is_issue_event(self) -> bool {
        self is IssueCreated || self is IssueUpdated
    }

    /// The accumulated change descriptions (empty for non-issue events).
    pub open spec fn spec_changes(self) -> Seq<String> {
        match self {
            Event::IssueCreated { changes, .. } => changes@,
            Event::IssueUpdated { changes, .. } => changes@,
            _ => Seq::empty(),
        }
    }

    /// The event with its change descriptions replaced (itself for
    /// non-issue events).
    pub open spec fn spec_with_changes(self, new_changes: Vec<String>) -> Event {
        match self {
            Event::IssueCreated {
                source, identifier, title, description, status, priority, assignee,
                assignee_email, url, changes,
            } => Event::IssueCreated {
                source, identifier, title, description, status, priority, assignee,
                assignee_email, url, changes: new_changes,
            },
            Event::IssueUpdated {
                source, identifier, title, description, status, priority, assignee,
                assignee_email, url, changes,
            } => Event::IssueUpdated {
                source, identifier, title, description, status, priority, assignee,
                assignee_email, url, changes: new_changes,
            },
            other => other,
        }
    }

    /// An `IssueUpdated` turned into an `IssueCreated` with the same fields;
    /// every other event unchanged.
    pub open spec fn spec_promote(self) -> Event {
        match self {
            Event::IssueUpdated {
                source, identifier, title, description, status, priority, assignee,
                assignee_email, url, changes,
            } => Event::IssueCreated {
                source, identifier, title, description, status, priority, assignee,
                assignee_email, url, changes,
            },
            other => other,
        }
    }

    /// Returns the accumulated change descriptions (empty for non-issue events).
    pub fn changes(&self) -> (c: &[String])
        ensures
            c@ == self.spec_changes(),
    {
        match self {
            Event::IssueCreated { changes, .. } => changes.as_slice(),
            Event::IssueUpdated { changes, .. } => changes.as_slice(),
            _ => &[],
        }
    }

    /// Replaces the change descriptions (no-op for non-issue events).
    pub fn set_changes(&mut self, new_changes: Vec<String>)
        ensures
            *final(self) == old(self).spec_with_changes(new_changes),
    {
        match self {
            Event::IssueCreated { changes, .. } => {
                *changes = new_changes;
            },
            Event::IssueUpdated { changes, .. } => {
                *changes = new_changes;
            },
            _ => {},
        }
    }

    /// Returns `true` if this is an [`Event::IssueCreated`].
    pub fn is_issue_created(&self) -> (b: bool)
        ensures
            b == (self is IssueCreated),
    {
        match self {
            Event::IssueCreated { .. } => true,
            _ => false,
        }
    }

    /// Promotes an [`Event::IssueUpdated`] to [`Event::IssueCreated`],
    /// preserving all fields. Other variants are returned unchanged.
    pub fn promote_to_created(self) -> (e: Self)
        ensures
            e == self.spec_promote(),
    {
        match self {
            Event::IssueUpdated {
                source, identifier, title, description, status, priority, assignee,
                assignee_email, url, changes,
            } => Event::IssueCreated {
                source, identifier, title, description, status, priority, assignee,
                assignee_email, url, changes,
            },
            other => other,
        }
    }
}


/// Converting a priority level to its Linear number and back gives the same
/// level.
pub proof fn law_priority_round_trip(p: Priority)
    ensures
        spec_priority_from_linear(p.spec_to_linear()) == p,
{
}

/// Every Linear number outside `1..=4` means "no priority".
pub proof fn law_unknown_priority_is_none(value: u8)
    requires
        value == 0 || value > 4,
    ensures
        spec_priority_from_linear(value) == Priority::NoPriority,
{
}

/// Promoting an update keeps all its fields and changes and makes it a
/// creation; promoting anything else changes nothing; promoting twice is
/// promoting once.
pub proof fn law_promote(e: Event)
    ensures
        e is IssueUpdated ==> e.spec_promote() is IssueCreated,
        !(e is IssueUpdated) ==> e.spec_promote() == e,
        e.spec_promote().spec_changes() == e.spec_changes(),
        e.spec_promote().spec_promote() == e.spec_promote(),
{
}

/// After replacing the changes of an issue event, they read back as set;
/// other events have none before and after.
pub proof fn law_set_changes_then_changes(e: Event, c: Vec<String>)
    ensures
        e.is_issue_event() ==> e.spec_with_changes(c).spec_changes() == c@,
        !e.is_issue_event() ==> e.spec_with_changes(c) == e && e.spec_changes().len() == 0,
        e.spec_with_changes(c) is IssueCreated == e is IssueCreated,
{
}

} // verus!
