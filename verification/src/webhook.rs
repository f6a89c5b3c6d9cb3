//! Linear webhooks: signature check, what each delivery is, who gets a
//! direct message, and the event that a delivery becomes.

use vstd::prelude::*;

use crate::cards::{opt_view, spec_issue_created_card, spec_issue_updated_card};
use crate::event::{opt_str, spec_priority_from_linear, Event, EventView, Priority};
use crate::models::{Assignee, Issue, IssueState, UpdatedFrom};
use crate::text::{str_eq, string_views};
use crate::utils::{spec_hmac_hex_valid, verify_hmac_sha256};
use vstd::string::StringSliceAdditionalSpecFns;

verus! {

broadcast use vstd::string::group_string_axioms;

/// Whether a `linear-signature` header (hex HMAC-SHA256 of the body) is
/// valid for `secret`.
pub fn verify_linear_signature(secret: &str, body: &[u8], signature: &str) -> (b: bool)
    ensures
        b == spec_hmac_hex_valid(secret.spec_bytes(), body@, signature.spec_bytes()),
{
    verify_hmac_sha256(secret, body, signature)
}

/// The deliveries that the relay handles.
#[derive(Clone, Copy, Debug, PartialEq, Eq, Structural)]
pub enum LinearWebhookKind {
    IssueCreate,
    IssueUpdate,
    CommentCreate,
    Other,
}

/// The kind of a delivery of `type` `kind` and `action`.
pub open spec fn spec_webhook_kind(kind: Seq<char>, action: Seq<char>) -> LinearWebhookKind {
    if kind == "Issue"@ && action == "create"@ {
        LinearWebhookKind::IssueCreate
    } else if kind == "Issue"@ && action == "update"@ {
        LinearWebhookKind::IssueUpdate
    } else if kind == "Comment"@ && action == "create"@ {
        LinearWebhookKind::CommentCreate
    } else {
        LinearWebhookKind::Other
    }
}

/// Classifies a delivery by its `type` and `action`.
pub fn classify_linear_webhook(kind: &str, action: &str) -> (k: LinearWebhookKind)
    ensures
        k == spec_webhook_kind(kind@, action@),
{
    if str_eq(kind, "Issue") && str_eq(action, "create") {
        LinearWebhookKind::IssueCreate
    } else if str_eq(kind, "Issue") && str_eq(action, "update") {
        LinearWebhookKind::IssueUpdate
    } else if str_eq(kind, "Comment") && str_eq(action, "create") {
        LinearWebhookKind::CommentCreate
    } else {
        LinearWebhookKind::Other
    }
}

/// The assignee's email, when the issue has an assignee with one.
pub open spec fn spec_assignee_email(issue: Issue) -> Option<Seq<char>> {
    match issue.assignee {
        Some(a) => opt_str(a.email),
        None => None,
    }
}

/// Whom to DM about a new issue: its assignee, when they have an email.
pub fn create_dm_email(issue: &Issue) -> (r: Option<String>)
    ensures
        opt_str(r) == spec_assignee_email(*issue),
{
    match &issue.assignee {
        Some(a) => match &a.email {
            Some(e) => Some(e.clone()),
            None => None,
        },
        None => None,
    }
}

/// Whom to DM about an update: the assignee, only when the update changed
/// the assignee (`updatedFrom.assigneeId` is present).
pub open spec fn spec_update_dm_email(issue: Issue, updated_from: Option<UpdatedFrom>) -> Option<Seq<char>> {
    match updated_from {
        Some(uf) => if uf.assignee_id is Some {
            spec_assignee_email(issue)
        } else {
            None
        },
        None => None,
    }
}

/// An update gives a DM address only when its `updatedFrom` carries an
/// `assigneeId` (the assignee changed); then the address is the current
/// assignee's email, when there is one. Updates that change other fields
/// only (state, priority, the `assignee` object) give none.
pub proof fn law_update_dm_only_on_reassignment(issue: Issue, updated_from: Option<UpdatedFrom>)
    ensures
        spec_update_dm_email(issue, updated_from) is Some ==> (updated_from matches Some(uf)
            && uf.assignee_id is Some),
        (updated_from matches Some(uf) && uf.assignee_id is Some) ==> spec_update_dm_email(
            issue,
            updated_from,
        ) == match issue.assignee {
            Some(a) => opt_str(a.email),
            None => None,
        },
        forall|uf: UpdatedFrom|
            uf.assignee_id is None ==> #[trigger] spec_update_dm_email(issue, Some(uf)) is None,
{
}

/// Whom to DM about an update.
pub fn update_dm_email(issue: &Issue, updated_from: &Option<UpdatedFrom>) -> (r: Option<String>)
    ensures
        opt_str(r) == spec_update_dm_email(*issue, *updated_from),
{
    match updated_from {
        Some(uf) => if uf.assignee_id.is_some() {
            create_dm_email(issue)
        } else {
            None
        },
        None => None,
    }
}

/// The event that an issue delivery becomes.
pub open spec fn spec_issue_event(issue: Issue, url: Seq<char>, changes: Seq<Seq<char>>, created: bool) -> EventView {
    let assignee = match issue.assignee {
        Some(a) => Some(a.name@),
        None => None,
    };
    if created {
        EventView::IssueCreated {
            source: "linear"@,
            identifier: issue.identifier@,
            title: issue.title@,
            description: opt_view(issue.description),
            status: issue.state.name@,
            priority: spec_priority_from_linear(issue.priority),
            assignee,
            assignee_email: spec_assignee_email(issue),
            url,
            changes,
        }
    } else {
        EventView::IssueUpdated {
            source: "linear"@,
            identifier: issue.identifier@,
            title: issue.title@,
            description: opt_view(issue.description),
            status: issue.state.name@,
            priority: spec_priority_from_linear(issue.priority),
            assignee,
            assignee_email: spec_assignee_email(issue),
            url,
            changes,
        }
    }
}

fn clone_opt(s: &Option<String>) -> (r: Option<String>)
    ensures
        opt_str(r) == opt_str(*s),
{
    match s {
        Some(v) => Some(v.clone()),
        None => None,
    }
}

/// Turns an issue delivery into an event.
pub fn issue_event(issue: &Issue, url: &str, changes: Vec<String>, created: bool) -> (e: Event)
    ensures
        e@ == spec_issue_event(*issue, url@, string_views(changes@), created),
{
    let assignee = match &issue.assignee {
        Some(a) => Some(a.name.clone()),
        None => None,
    };
    let assignee_email = create_dm_email(issue);
    let e = if created {
        Event::IssueCreated {
            source: String::from_str("linear"),
            identifier: issue.identifier.clone(),
            title: issue.title.clone(),
            description: clone_opt(&issue.description),
            status: issue.state.name.clone(),
            priority: Priority::from_linear(issue.priority),
            assignee,
            assignee_email,
            url: String::from_str(url),
            changes,
        }
    } else {
        Event::IssueUpdated {
            source: String::from_str("linear"),
            identifier: issue.identifier.clone(),
            title: issue.title.clone(),
            description: clone_opt(&issue.description),
            status: issue.state.name.clone(),
            priority: Priority::from_linear(issue.priority),
            assignee,
            assignee_email,
            url: String::from_str(url),
            changes,
        }
    };
    proof {
        assert(crate::event::str_seq(changes@) =~= string_views(changes@));
    }
    e
}

/// Whether `issue` (with link `url`) carries what the issue event `e` holds:
/// the same texts, and a priority number that means the same level.
pub open spec fn issue_matches_event(issue: Issue, url: Seq<char>, e: EventView) -> bool {
    match e {
        EventView::IssueCreated {
            identifier, title, description, status, priority, assignee, assignee_email, url: u, ..
        } => issue_matches_fields(issue, identifier, title, description, status, priority, assignee,
            assignee_email) && url == u,
        EventView::IssueUpdated {
            identifier, title, description, status, priority, assignee, assignee_email, url: u, ..
        } => issue_matches_fields(issue, identifier, title, description, status, priority, assignee,
            assignee_email) && url == u,
        _ => false,
    }
}

/// Field-by-field agreement of an issue with the parts of an issue event.
pub open spec fn issue_matches_fields(
    issue: Issue,
    identifier: Seq<char>,
    title: Seq<char>,
    description: Option<Seq<char>>,
    status: Seq<char>,
    priority: Priority,
    assignee: Option<Seq<char>>,
    assignee_email: Option<Seq<char>>,
) -> bool {
    &&& issue.identifier@ == identifier
    &&& issue.title@ == title
    &&& opt_view(issue.description) == description
    &&& issue.state.name@ == status
    &&& spec_priority_from_linear(issue.priority) == priority
    &&& match issue.assignee {
        Some(a) => assignee == Some(a.name@) && opt_str(a.email) == assignee_email,
        None => assignee is None,
    }
}

/// The issue (and link) that a pending issue event stands for, so that its
/// card can be built when the debounce window closes; `None` for other
/// events.
pub fn issue_from_event(id: &str, event: &Event) -> (r: Option<(Issue, String)>)
    ensures
        r is None <==> !event.is_issue_event(),
        r matches Some((issue, url)) ==> issue_matches_event(issue, url@, event@) && issue.id@
            == id@,
{
    match event {
        Event::IssueCreated {
            identifier, title, description, status, priority, assignee, assignee_email, url, ..
        } | Event::IssueUpdated {
            identifier, title, description, status, priority, assignee, assignee_email, url, ..
        } => {
            let assignee = match assignee {
                Some(name) => Some(Assignee { name: name.clone(), email: clone_opt(assignee_email) }),
                None => None,
            };
            let issue = Issue {
                id: String::from_str(id),
                title: title.clone(),
                priority: priority.to_linear(),
                state: IssueState { name: status.clone() },
                assignee,
                identifier: identifier.clone(),
                description: clone_opt(description),
            };
            Some((issue, url.clone()))
        },
        _ => None,
    }
}

/// An issue rebuilt from its debounced event gives the same group cards as
/// the issue that the event was made from.
pub proof fn law_debounced_card_round_trip(
    issue: Issue,
    rebuilt: Issue,
    url: Seq<char>,
    rebuilt_url: Seq<char>,
    changes: Seq<Seq<char>>,
    created: bool,
)
    requires
        issue_matches_event(rebuilt, rebuilt_url, spec_issue_event(issue, url, changes, created)),
    ensures
        spec_issue_created_card(rebuilt, rebuilt_url) == spec_issue_created_card(issue, url),
        spec_issue_updated_card(rebuilt, rebuilt_url, changes) == spec_issue_updated_card(
            issue,
            url,
            changes,
        ),
{
    assert(crate::cards::issue_fields(rebuilt) == crate::cards::issue_fields(issue));
}

} // verus!
