//! Linear issue links and link-preview cards.

use vstd::prelude::*;

use crate::cards::{
    bold, card, description_elements, make_card_parts, md, opt_view, spec_button, spec_fields,
};
use crate::event::spec_priority_from_linear;
use crate::models::{CardView, ElementView, LarkCard, LinearIssueData};
use crate::text::spec_trim;
use crate::utils::spec_truncate;
use crate::text::{all_ascii_digits, spec_split, split_char, str_eq, str_views, contains_char, is_all_ascii_digits};
use crate::utils::spec_priority_color;

verus! {

broadcast use vstd::string::group_string_axioms;

/// Whether a path segment looks like an issue identifier (`"TEAM-123"`):
/// it holds a `'-'` and its text after the last `'-'` is one or more ASCII
/// digits.
pub open spec fn looks_like_identifier(segment: Seq<char>) -> bool {
    &&& segment.contains('-')
    &&& spec_split(segment, '-').last().len() > 0
    &&& all_ascii_digits(spec_split(segment, '-').last())
}

/// The identifier that follows the first `"issue"` segment at or after `i`
/// whose next segment looks like an identifier.
pub open spec fn identifier_from(parts: Seq<Seq<char>>, i: int) -> Option<Seq<char>>
    decreases parts.len() - i,
{
    if i < 0 || i >= parts.len() {
        None
    } else if parts[i] == "issue"@ && i + 1 < parts.len() && looks_like_identifier(parts[i + 1]) {
        Some(parts[i + 1])
    } else {
        identifier_from(parts, i + 1)
    }
}

/// The issue identifier in a Linear URL.
pub open spec fn spec_identifier_from_url(url: Seq<char>) -> Option<Seq<char>> {
    identifier_from(spec_split(url, '/'), 0)
}

/// Whether `segment` looks like an issue identifier.
fn is_identifier_like(segment: &str) -> (b: bool)
    ensures
        b == looks_like_identifier(segment@),
{
    if !contains_char(segment, '-') {
        return false;
    }
    let pieces = split_char(segment, '-');
    proof {
        assert(pieces@.len() == spec_split(segment@, '-').len());
        crate::text::lemma_split_nonempty(segment@, '-');
    }
    let last = pieces[pieces.len() - 1];
    proof {
        assert(str_views(pieces@)[pieces@.len() - 1] == last@);
    }
    last.unicode_len() > 0 && is_all_ascii_digits(last)
}

/// Extract issue identifier from a Linear URL like
/// `https://linear.app/workspace/issue/LIN-123/some-slug`
pub fn extract_identifier_from_url(url: &str) -> (r: Option<String>)
    ensures
        r matches Some(s) ==> spec_identifier_from_url(url@) == Some(s@),
        r is None ==> spec_identifier_from_url(url@) is None,
{
    let parts = split_char(url, '/');
    let ghost views = str_views(parts@);
    let mut i: usize = 0;
    while i < parts.len()
        invariant
            views == str_views(parts@),
            views == spec_split(url@, '/'),
            i <= parts@.len(),
            identifier_from(views, 0) == identifier_from(views, i as int),
        decreases parts@.len() - i,
    {
        proof {
            assert(views[i as int] == parts@[i as int]@);
        }
        if str_eq(parts[i], "issue") && i + 1 < parts.len() {
            proof {
                assert(views[i + 1] == parts@[i + 1]@);
            }
            if is_identifier_like(parts[i + 1]) {
                return Some(String::from_str(parts[i + 1]));
            }
        }
        i = i + 1;
    }
    None
}

/// The link-preview card of a Linear issue.
pub open spec fn spec_preview_card(issue: LinearIssueData) -> CardView {
    let assignee = match issue.assignee {
        Some(a) => a.name@,
        None => "Unassigned"@,
    };
    card(
        spec_priority_color(issue.priority),
        "[Linear] "@ + issue.identifier@,
        seq![md(bold(issue.title@))] + description_elements(opt_view(issue.description)) + seq![
            spec_fields(
                issue.state.name@,
                spec_priority_from_linear(issue.priority).spec_display(),
                assignee,
            ),
            spec_button(issue.url@),
        ],
    )
}

/// The preview card of an issue starts with its bold title; when its
/// description is not blank, the next block is the trimmed description cut
/// to 200 characters, and the card has four blocks; otherwise it has three.
/// It always ends with the "View in Linear" button to the issue's link.
pub proof fn law_preview_card_description(issue: LinearIssueData)
    ensures
        ({
            let els = spec_preview_card(issue).elements;
            &&& els[0] == ElementView::Markdown("**"@ + issue.title@ + "**"@)
            &&& match issue.description {
                Some(d) => if spec_trim(d@).len() > 0 {
                    els.len() == 4 && els[1] == ElementView::Markdown(
                        spec_truncate(spec_trim(d@), 200),
                    )
                } else {
                    els.len() == 3
                },
                None => els.len() == 3,
            }
            &&& els[els.len() - 1] == (ElementView::Button {
                label: "View in Linear"@,
                url: issue.url@,
            })
        }),
{
}

/// Builds the link-preview card of a Linear issue.
pub fn build_preview_card(issue: &LinearIssueData) -> (c: LarkCard)
    ensures
        c@ == spec_preview_card(*issue),
{
    let assignee = match &issue.assignee {
        Some(a) => a.name.as_str(),
        None => "Unassigned",
    };
    make_card_parts(
        issue.priority,
        "[Linear] ",
        issue.identifier.as_str(),
        issue.title.as_str(),
        &issue.description,
        issue.state.name.as_str(),
        assignee,
        issue.url.as_str(),
    )
}

} // verus!
