//! Linear webhook data and Lark card structures, as plain values.

use vstd::prelude::*;

verus! {

// ---------------------------------------------------------------------------
// Linear webhook models
// ---------------------------------------------------------------------------

/// The `data` of a Linear `Issue` webhook.
#[derive(Debug)]
pub struct Issue {
    pub id: String,
    pub title: String,
    pub priority: u8,
    pub state: IssueState,
    pub assignee: Option<Assignee>,
    pub identifier: String,
    pub description: Option<String>,
}

#[derive(Debug)]
pub struct IssueState {
    pub name: String,
}

#[derive(Debug)]
pub struct Assignee {
    pub name: String,
    pub email: Option<String>,
}

/// The `updatedFrom` object of a Linear update webhook: which fields had a
/// previous value.
#[derive(Debug)]
pub struct UpdatedFrom {
    /// `state` was present (and not null).
    pub state: bool,
    pub priority: Option<u8>,
    /// `assignee` was present (and not null).
    pub assignee: bool,
    pub assignee_id: Option<String>,
}

/// The `data` of a Linear `Comment` webhook.
#[derive(Debug)]
pub struct CommentData {
    pub id: String,
    pub body: String,
    pub issue: Option<CommentIssue>,
}

#[derive(Debug)]
pub struct CommentIssue {
    pub identifier: String,
    pub title: String,
}

#[derive(Debug)]
pub struct Actor {
    pub name: String,
    pub email: Option<String>,
}

// ---------------------------------------------------------------------------
// Lark card models
// ---------------------------------------------------------------------------

/// One element of a Lark interactive card.
#[derive(Debug)]
pub enum CardElement {
    /// `{"tag": "div", "text": {"tag": "lark_md", "content": ..}}`
    Markdown(String),
    /// `{"tag": "div", "fields": [{"is_short": true, "text": {"tag": "lark_md",
    /// "content": ..}}, ..]}`
    Fields(Vec<String>),
    /// `{"tag": "action", "actions": [{"tag": "button", "text": {"tag":
    /// "plain_text", "content": label}, "type": "primary", "url": url}]}`
    Button { label: String, url: String },
}

/// The mathematical value of a [`CardElement`].
pub enum ElementView {
    Markdown(Seq<char>),
    Fields(Seq<Seq<char>>),
    Button { label: Seq<char>, url: Seq<char> },
}

impl View for CardElement {
    type V = ElementView;

    open spec fn view(&self) -> ElementView {
        match self {
            CardElement::Markdown(s) => ElementView::Markdown(s@),
            CardElement::Fields(v) => ElementView::Fields(v@.map_values(|f: String| f@)),
            CardElement::Button { label, url } => ElementView::Button {
                label: label@,
                url: url@,
            },
        }
    }
}

/// A complete Lark card message ready to POST.
#[derive(Debug)]
pub struct LarkMessage {
    pub msg_type: String,
    pub card: LarkCard,
}

/// The card body (header + elements).
#[derive(Debug)]
pub struct LarkCard {
    pub header: LarkHeader,
    pub elements: Vec<CardElement>,
}

/// Card header with a color template and title.
#[derive(Debug)]
pub struct LarkHeader {
    pub template: String,
    pub title: LarkTitle,
}

/// Plain-text title used inside a [`LarkHeader`].
#[derive(Debug)]
pub struct LarkTitle {
    pub content: String,
    pub tag: String,
}

/// The views of a sequence of card elements.
pub open spec fn element_views(v: Seq<CardElement>) -> Seq<ElementView> {
    v.map_values(|e: CardElement| e@)
}

/// Appends an element to a card body.
pub fn push_element(v: &mut Vec<CardElement>, e: CardElement)
    ensures
        element_views(final(v)@) == element_views(old(v)@).push(e@),
{
    let ghost ev = e@;
    v.push(e);
    proof {
        assert(element_views(v@) =~= element_views(old(v)@).push(ev));
    }
}

/// The mathematical value of a [`LarkCard`].
pub struct CardView {
    pub template: Seq<char>,
    pub title: Seq<char>,
    pub title_tag: Seq<char>,
    pub elements: Seq<ElementView>,
}

/// The mathematical value of a [`LarkMessage`].
pub struct MessageView {
    pub msg_type: Seq<char>,
    pub card: CardView,
}

impl View for LarkCard {
    type V = CardView;

    open spec fn view(&self) -> CardView {
        CardView {
            template: self.header.template@,
            title: self.header.title.content@,
            title_tag: self.header.title.tag@,
            elements: element_views(self.elements@),
        }
    }
}

impl View for LarkMessage {
    type V = MessageView;

    open spec fn view(&self) -> MessageView {
        MessageView { msg_type: self.msg_type@, card: self.card@ }
    }
}

// ---------------------------------------------------------------------------
// Linear GraphQL client models
// ---------------------------------------------------------------------------

/// An issue as the Linear GraphQL API returns it.
#[derive(Debug)]
pub struct LinearIssueData {
    pub title: String,
    pub description: Option<String>,
    pub priority: u8,
    pub state: LinearIssueState,
    pub assignee: Option<LinearIssueAssignee>,
    pub url: String,
    pub identifier: String,
}

#[derive(Debug)]
pub struct LinearIssueState {
    pub name: String,
}

#[derive(Debug)]
pub struct LinearIssueAssignee {
    pub name: String,
}

} // verus!
