//! Lark interactive cards for Linear issues and comments.

use vstd::prelude::*;

use crate::models::{
    element_views, push_element, Actor, CardElement, CardView, CommentData, ElementView, Issue, LarkCard, LarkHeader,
    LarkMessage, LarkTitle, MessageView,
};
use crate::text::{seq_join, spec_trim, string_views, trim, join};
use crate::utils::{
    priority_color, priority_display, spec_priority_color, spec_truncate, truncate,
};
use crate::event::spec_priority_from_linear;

verus! {

broadcast use vstd::string::group_string_axioms;

// ---------------------------------------------------------------------------
// What each card holds
// ---------------------------------------------------------------------------

/// A `lark_md` text block.
pub open spec fn md(content: Seq<char>) -> ElementView {
    ElementView::Markdown(content)
}

/// The "Status / Priority / Assignee" fields block.
pub open spec fn spec_fields(status: Seq<char>, priority: Seq<char>, assignee: Seq<char>) -> ElementView {
    ElementView::Fields(
        seq!["**Status:** "@ + status, "**Priority:** "@ + priority, "**Assignee:** "@ + assignee],
    )
}

/// The "View in Linear" button.
pub open spec fn spec_button(url: Seq<char>) -> ElementView {
    ElementView::Button { label: "View in Linear"@, url }
}

/// `**{text}**`
pub open spec fn bold(text: Seq<char>) -> Seq<char> {
    "**"@ + text + "**"@
}

/// The block that summarizes a description: its trimmed text cut to 200
/// characters, and nothing when that is empty.
pub open spec fn description_elements(description: Option<Seq<char>>) -> Seq<ElementView> {
    match description {
        Some(d) => if spec_trim(d).len() > 0 {
            seq![md(spec_truncate(spec_trim(d), 200))]
        } else {
            Seq::empty()
        },
        None => Seq::empty(),
    }
}

/// The view of an optional string.
pub open spec fn opt_view(s: Option<String>) -> Option<Seq<char>> {
    match s {
        Some(t) => Some(t@),
        None => None,
    }
}

/// The assignee's name, or `"Unassigned"`.
pub open spec fn issue_assignee_name(issue: Issue) -> Seq<char> {
    match issue.assignee {
        Some(a) => a.name@,
        None => "Unassigned"@,
    }
}

/// The fields block of an issue.
pub open spec fn issue_fields(issue: Issue) -> ElementView {
    spec_fields(
        issue.state.name@,
        spec_priority_from_linear(issue.priority).spec_display(),
        issue_assignee_name(issue),
    )
}

/// An interactive message around a card.
pub open spec fn interactive(card: CardView) -> MessageView {
    MessageView { msg_type: "interactive"@, card }
}

/// A card with a plain-text title.
pub open spec fn card(template: Seq<char>, title: Seq<char>, elements: Seq<ElementView>) -> CardView {
    CardView { template, title, title_tag: "plain_text"@, elements }
}

/// The group card for a created issue.
pub open spec fn spec_issue_created_card(issue: Issue, url: Seq<char>) -> MessageView {
    interactive(
        card(
            spec_priority_color(issue.priority),
            "[Linear] Created: "@ + issue.identifier@,
            seq![md(bold(issue.title@))] + description_elements(opt_view(issue.description))
                + seq![issue_fields(issue), spec_button(url)],
        ),
    )
}

/// The block listing the changes of an update, one per line; nothing when
/// there are none.
pub open spec fn change_elements(changes: Seq<Seq<char>>) -> Seq<ElementView> {
    if changes.len() > 0 {
        seq![md(seq_join(changes, "\n"@))]
    } else {
        Seq::empty()
    }
}

/// The group card for an updated issue.
pub open spec fn spec_issue_updated_card(issue: Issue, url: Seq<char>, changes: Seq<Seq<char>>) -> MessageView {
    interactive(
        card(
            spec_priority_color(issue.priority),
            "[Linear] Updated: "@ + issue.identifier@,
            seq![md(bold(issue.title@))] + change_elements(changes) + seq![
                issue_fields(issue),
                spec_button(url),
            ],
        ),
    )
}

/// Who wrote a comment: the actor's name, or `"Someone"`.
pub open spec fn commenter(actor: Option<Actor>) -> Seq<char> {
    match actor {
        Some(a) => a.name@,
        None => "Someone"@,
    }
}

/// The group card for a new comment.
pub open spec fn spec_comment_created_card(comment: CommentData, url: Seq<char>, actor: Option<Actor>) -> MessageView {
    let issue_ref = match comment.issue {
        Some(i) => i.identifier@ + ": "@ + i.title@,
        None => "an issue"@,
    };
    let body = spec_truncate(spec_trim(comment.body@), 200);
    let identifier = match comment.issue {
        Some(i) => i.identifier@,
        None => "?"@,
    };
    interactive(
        card(
            "blue"@,
            "[Linear] Comment: "@ + identifier,
            seq![md(bold(commenter(actor)) + " commented on "@ + bold(issue_ref))] + (if body.len()
                > 0 {
                seq![md(body)]
            } else {
                Seq::empty()
            }) + seq![spec_button(url)],
        ),
    )
}

/// The direct-message card for the assignee of an issue.
pub open spec fn spec_assign_dm_card(issue: Issue, url: Seq<char>) -> CardView {
    card(
        spec_priority_color(issue.priority),
        "[Linear] Assigned: "@ + issue.identifier@,
        seq![
            md("You've been assigned to "@ + bold(issue.identifier@) + "\n"@ + issue.title@),
            spec_fields(
                issue.state.name@,
                spec_priority_from_linear(issue.priority).spec_display(),
                "Unassigned"@,
            ),
            spec_button(url),
        ],
    )
}

/// The "Status / Priority / Assignee" block of an issue spelled out: its
/// state, its priority as emoji and label, and its assignee's name, or
/// `"Unassigned"` only when it has none.
pub open spec fn expected_issue_fields(issue: Issue) -> ElementView {
    ElementView::Fields(
        seq![
            "**Status:** "@ + issue.state.name@,
            "**Priority:** "@ + spec_priority_from_linear(issue.priority).spec_display(),
            "**Assignee:** "@ + match issue.assignee {
                Some(a) => a.name@,
                None => "Unassigned"@,
            },
        ],
    )
}

/// The created and the updated card of an issue end with the same fields
/// block, which names the issue's assignee (or says `"Unassigned"` when it
/// has none), followed by the "View in Linear" button to the issue's link;
/// both start with the bold title.
pub proof fn law_issue_cards_share_fields(issue: Issue, url: Seq<char>, changes: Seq<Seq<char>>)
    ensures
        ({
            let up = spec_issue_updated_card(issue, url, changes).card.elements;
            let cr = spec_issue_created_card(issue, url).card.elements;
            &&& up.len() >= 3 && cr.len() >= 3
            &&& up[up.len() - 2] == expected_issue_fields(issue)
            &&& cr[cr.len() - 2] == expected_issue_fields(issue)
            &&& up[up.len() - 1] == (ElementView::Button { label: "View in Linear"@, url })
            &&& cr[cr.len() - 1] == (ElementView::Button { label: "View in Linear"@, url })
            &&& up[0] == ElementView::Markdown("**"@ + issue.title@ + "**"@)
            &&& cr[0] == ElementView::Markdown("**"@ + issue.title@ + "**"@)
        }),
{
    let up = spec_issue_updated_card(issue, url, changes).card.elements;
    let cr = spec_issue_created_card(issue, url).card.elements;
    let d = description_elements(opt_view(issue.description));
    let c = change_elements(changes);
    assert(d.len() <= 1);
    assert(c.len() <= 1);
    assert(up =~= seq![md(bold(issue.title@))] + c + seq![issue_fields(issue), spec_button(url)]);
    assert(cr =~= seq![md(bold(issue.title@))] + d + seq![issue_fields(issue), spec_button(url)]);
    assert(up[up.len() - 2] == issue_fields(issue));
    assert(cr[cr.len() - 2] == issue_fields(issue));
    assert(issue_fields(issue) == expected_issue_fields(issue)) by {
        assert(issue_assignee_name(issue) == match issue.assignee {
            Some(a) => a.name@,
            None => "Unassigned"@,
        });
        assert(seq![
            "**Status:** "@ + issue.state.name@,
            "**Priority:** "@ + spec_priority_from_linear(issue.priority).spec_display(),
            "**Assignee:** "@ + issue_assignee_name(issue),
        ] =~= seq![
            "**Status:** "@ + issue.state.name@,
            "**Priority:** "@ + spec_priority_from_linear(issue.priority).spec_display(),
            "**Assignee:** "@ + match issue.assignee {
                Some(a) => a.name@,
                None => "Unassigned"@,
            },
        ]);
    }
}

// ---------------------------------------------------------------------------
// Shared card-element helpers
// ---------------------------------------------------------------------------

/// Builds `{prefix}{text}`.
fn prefixed(prefix: &str, text: &str) -> (s: String)
    ensures
        s@ == prefix@ + text@,
{
    String::from_str(prefix).concat(text)
}

/// Builds `**{text}**`.
fn make_bold(text: &str) -> (s: String)
    ensures
        s@ == bold(text@),
{
    String::from_str("**").concat(text).concat("**")
}

/// Build the standard "Status / Priority / Assignee" fields block.
pub fn build_fields(status: &str, priority: &str, assignee: Option<&str>) -> (e: CardElement)
    ensures
        e@ == spec_fields(
            status@,
            priority@,
            match assignee {
                Some(a) => a@,
                None => "Unassigned"@,
            },
        ),
{
    let assignee = match assignee {
        Some(a) => a,
        None => "Unassigned",
    };
    let mut fields: Vec<String> = Vec::new();
    fields.push(prefixed("**Status:** ", status));
    fields.push(prefixed("**Priority:** ", priority));
    fields.push(prefixed("**Assignee:** ", assignee));
    proof {
        assert(fields@.map_values(|f: String| f@) =~= seq![
            "**Status:** "@ + status@,
            "**Priority:** "@ + priority@,
            "**Assignee:** "@ + assignee@,
        ]);
    }
    CardElement::Fields(fields)
}

/// Build a standard "View in Linear" action-button element.
pub fn build_action_button(url: &str) -> (e: CardElement)
    ensures
        e@ == spec_button(url@),
{
    CardElement::Button { label: String::from_str("View in Linear"), url: String::from_str(url) }
}


/// Appends the description summary of an issue, if it has a non-blank one.
fn push_description(elements: &mut Vec<CardElement>, description: &Option<String>)
    ensures
        element_views(final(elements)@) == element_views(old(elements)@) + description_elements(
            opt_view(*description),
        ),
{
    if let Some(desc) = description {
        let trimmed = trim(desc.as_str());
        if trimmed.unicode_len() > 0 {
            push_element(elements, CardElement::Markdown(truncate(trimmed, 200)));
            proof {
                assert(element_views(elements@) =~= element_views(old(elements)@)
                    + description_elements(opt_view(*description)));
            }
            return;
        }
    }
    proof {
        assert(element_views(elements@) =~= element_views(old(elements)@) + description_elements(
            opt_view(*description),
        ));
    }
}

/// The name of the issue's assignee, or `"Unassigned"`.
fn assignee_name(issue: &Issue) -> (s: &str)
    ensures
        s@ == issue_assignee_name(*issue),
{
    match &issue.assignee {
        Some(a) => a.name.as_str(),
        None => "Unassigned",
    }
}

/// The fields block of an issue.
fn fields_of(issue: &Issue) -> (e: CardElement)
    ensures
        e@ == issue_fields(*issue),
{
    let p = priority_display(issue.priority);
    build_fields(issue.state.name.as_str(), p.as_str(), Some(assignee_name(issue)))
}

/// A card with a plain-text title.
fn make_card(template: &str, title: String, elements: Vec<CardElement>) -> (c: LarkCard)
    ensures
        c@ == card(template@, title@, element_views(elements@)),
{
    LarkCard {
        header: LarkHeader {
            template: String::from_str(template),
            title: LarkTitle { content: title, tag: String::from_str("plain_text") },
        },
        elements,
    }
}

/// An interactive message around a card.
fn make_interactive(card: LarkCard) -> (m: LarkMessage)
    ensures
        m@ == interactive(card@),
{
    LarkMessage { msg_type: String::from_str("interactive"), card }
}

// ---------------------------------------------------------------------------
// Card event enum & card builder
// ---------------------------------------------------------------------------

/// What a group card is about.
pub enum CardEvent<'a> {
    IssueCreated { issue: &'a Issue, url: &'a str },
    IssueUpdated { issue: &'a Issue, url: &'a str, changes: Vec<String> },
    CommentCreated { comment: &'a CommentData, url: &'a str, actor: Option<&'a Actor> },
}

/// The group card for a card event.
pub open spec fn spec_lark_card(event: CardEvent) -> MessageView {
    match event {
        CardEvent::IssueCreated { issue, url } => spec_issue_created_card(*issue, url@),
        CardEvent::IssueUpdated { issue, url, changes } => spec_issue_updated_card(
            *issue,
            url@,
            string_views(changes@),
        ),
        CardEvent::CommentCreated { comment, url, actor } => spec_comment_created_card(
            *comment,
            url@,
            match actor {
                Some(a) => Some(*a),
                None => None,
            },
        ),
    }
}

/// Builds the group card for `event`.
pub fn build_lark_card(event: &CardEvent) -> (m: LarkMessage)
    ensures
        m@ == spec_lark_card(*event),
{
    match event {
        CardEvent::IssueCreated { issue, url } => build_issue_created_card(issue, url),
        CardEvent::IssueUpdated { issue, url, changes } => build_issue_updated_card(
            issue,
            url,
            changes.as_slice(),
        ),
        CardEvent::CommentCreated { comment, url, actor } => build_comment_created_card(
            comment,
            url,
            *actor,
        ),
    }
}

fn build_issue_created_card(issue: &Issue, url: &str) -> (m: LarkMessage)
    ensures
        m@ == spec_issue_created_card(*issue, url@),
{
    let color = priority_color(issue.priority);
    let mut elements: Vec<CardElement> = Vec::new();
    push_element(&mut elements, CardElement::Markdown(make_bold(issue.title.as_str())));
    push_description(&mut elements, &issue.description);
    push_element(&mut elements, fields_of(issue));
    push_element(&mut elements, build_action_button(url));
    let title = prefixed("[Linear] Created: ", issue.identifier.as_str());
    proof {
        assert(element_views(elements@) =~= seq![md(bold(issue.title@))] + description_elements(
            opt_view(issue.description),
        ) + seq![issue_fields(*issue), spec_button(url@)]);
    }
    make_interactive(make_card(color, title, elements))
}

fn build_issue_updated_card(issue: &Issue, url: &str, changes: &[String]) -> (m: LarkMessage)
    ensures
        m@ == spec_issue_updated_card(*issue, url@, string_views(changes@)),
{
    let color = priority_color(issue.priority);
    let mut elements: Vec<CardElement> = Vec::new();
    push_element(&mut elements, CardElement::Markdown(make_bold(issue.title.as_str())));
    let ghost before = element_views(elements@);
    if changes.len() > 0 {
        push_element(&mut elements, CardElement::Markdown(join(changes, "\n")));
    }
    proof {
        assert(element_views(elements@) =~= before + change_elements(string_views(changes@)));
    }
    push_element(&mut elements, fields_of(issue));
    push_element(&mut elements, build_action_button(url));
    let title = prefixed("[Linear] Updated: ", issue.identifier.as_str());
    proof {
        assert(element_views(elements@) =~= seq![md(bold(issue.title@))] + change_elements(
            string_views(changes@),
        ) + seq![issue_fields(*issue), spec_button(url@)]);
    }
    make_interactive(make_card(color, title, elements))
}

fn build_comment_created_card(comment: &CommentData, url: &str, actor: Option<&Actor>) -> (m:
    LarkMessage)
    ensures
        m@ == spec_comment_created_card(
            *comment,
            url@,
            match actor {
                Some(a) => Some(*a),
                None => None,
            },
        ),
{
    let ghost actor_v = match actor {
        Some(a) => Some(*a),
        None => None,
    };
    let who = match actor {
        Some(a) => a.name.as_str(),
        None => "Someone",
    };
    let issue_ref = match &comment.issue {
        Some(i) => String::from_str(i.identifier.as_str()).concat(": ").concat(i.title.as_str()),
        None => String::from_str("an issue"),
    };
    let mut elements: Vec<CardElement> = Vec::new();
    let headline = make_bold(who).concat(" commented on ").concat(make_bold(issue_ref.as_str()).as_str());
    push_element(&mut elements, CardElement::Markdown(headline));
    let body = truncate(trim(comment.body.as_str()), 200);
    let ghost before = element_views(elements@);
    let ghost body_v = body@;
    if body.as_str().unicode_len() > 0 {
        push_element(&mut elements, CardElement::Markdown(body));
    }
    proof {
        assert(element_views(elements@) =~= before + (if body_v.len() > 0 {
            seq![md(body_v)]
        } else {
            Seq::empty()
        }));
    }
    push_element(&mut elements, build_action_button(url));
    let identifier = match &comment.issue {
        Some(i) => i.identifier.as_str(),
        None => "?",
    };
    let title = prefixed("[Linear] Comment: ", identifier);
    proof {
        assert(commenter(actor_v) == who@);
        assert(element_views(elements@) =~= seq![
            md(bold(who@) + " commented on "@ + bold(issue_ref@)),
        ] + (if body_v.len() > 0 {
            seq![md(body_v)]
        } else {
            Seq::empty()
        }) + seq![spec_button(url@)]);
    }
    make_interactive(make_card("blue", title, elements))
}

// ---------------------------------------------------------------------------
// Build DM card for assignee notification
// ---------------------------------------------------------------------------

/// Builds the direct-message card that tells the assignee of `issue` about it.
pub fn build_assign_dm_card(issue: &Issue, url: &str) -> (c: LarkCard)
    ensures
        c@ == spec_assign_dm_card(*issue, url@),
{
    let mut elements: Vec<CardElement> = Vec::new();
    let text = String::from_str("You've been assigned to ").concat(
        make_bold(issue.identifier.as_str()).as_str(),
    ).concat("\n").concat(issue.title.as_str());
    push_element(&mut elements, CardElement::Markdown(text));
    let p = priority_display(issue.priority);
    push_element(&mut elements, build_fields(issue.state.name.as_str(), p.as_str(), None));
    push_element(&mut elements, build_action_button(url));
    let title = prefixed("[Linear] Assigned: ", issue.identifier.as_str());
    proof {
        assert(element_views(elements@) =~= seq![
            md("You've been assigned to "@ + bold(issue.identifier@) + "\n"@ + issue.title@),
            spec_fields(
                issue.state.name@,
                spec_priority_from_linear(issue.priority).spec_display(),
                "Unassigned"@,
            ),
            spec_button(url@),
        ]);
    }
    make_card(priority_color(issue.priority), title, elements)
}


/// A card of the shape that issue cards share: bold title, description
/// summary, fields block and button.
pub fn make_card_parts(
    priority: u8,
    title_prefix: &str,
    identifier: &str,
    title: &str,
    description: &Option<String>,
    status: &str,
    assignee: &str,
    url: &str,
) -> (c: LarkCard)
    ensures
        c@ == card(
            spec_priority_color(priority),
            title_prefix@ + identifier@,
            seq![md(bold(title@))] + description_elements(opt_view(*description)) + seq![
                spec_fields(status@, spec_priority_from_linear(priority).spec_display(), assignee@),
                spec_button(url@),
            ],
        ),
{
    let mut elements: Vec<CardElement> = Vec::new();
    push_element(&mut elements, CardElement::Markdown(make_bold(title)));
    push_description(&mut elements, description);
    let p = priority_display(priority);
    push_element(&mut elements, build_fields(status, p.as_str(), Some(assignee)));
    push_element(&mut elements, build_action_button(url));
    proof {
        assert(element_views(elements@) =~= seq![md(bold(title@))] + description_elements(
            opt_view(*description),
        ) + seq![
            spec_fields(status@, spec_priority_from_linear(priority).spec_display(), assignee@),
            spec_button(url@),
        ]);
    }
    make_card(priority_color(priority), prefixed(title_prefix, identifier), elements)
}

} // verus!
