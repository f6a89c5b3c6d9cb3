//! X (Twitter) links: tweet identification, the order in which tweet data
//! sources are tried, and the text of an oEmbed snippet.

use vstd::prelude::*;

use crate::text::{
    all_ascii_digits, chars_of, find_char, find_in, find_str, lemma_find_char_at,
    lemma_find_char_none, lemma_split_nonempty, push_char, spec_split, split_char, str_eq,
    str_views,
};

verus! {

broadcast use vstd::string::group_string_axioms;

/// Minimal tweet data needed to build a Lark preview card.
#[derive(Debug)]
pub struct TweetData {
    pub text: String,
    pub author_name: String,
    pub author_username: String,
    pub url: String,
    pub like_count: Option<u64>,
    pub retweet_count: Option<u64>,
    pub reply_count: Option<u64>,
}

/// The id candidate that follows a `"status"` segment: the segment up to
/// its first `'?'`, then up to its first `'#'`.
pub open spec fn id_candidate(segment: Seq<char>) -> Seq<char> {
    spec_split(spec_split(segment, '?')[0], '#')[0]
}

/// `(username, id)` for the first `"status"` segment at or after `i` that
/// is followed by an id candidate made of one or more ASCII digits; the
/// username is the segment before `"status"` (`""` when there is none).
pub open spec fn tweet_info_from(parts: Seq<Seq<char>>, i: int) -> Option<(Seq<char>, Seq<char>)>
    decreases parts.len() - i,
{
    if i < 0 || i >= parts.len() {
        None
    } else if parts[i] == "status"@ && i + 1 < parts.len() && id_candidate(parts[i + 1]).len() > 0
        && all_ascii_digits(id_candidate(parts[i + 1])) {
        Some(
            (
                if i >= 1 {
                    parts[i - 1]
                } else {
                    Seq::empty()
                },
                id_candidate(parts[i + 1]),
            ),
        )
    } else {
        tweet_info_from(parts, i + 1)
    }
}

/// `(username, tweet_id)` of an X or Twitter status URL.
pub open spec fn spec_tweet_info(url: Seq<char>) -> Option<(Seq<char>, Seq<char>)> {
    tweet_info_from(spec_split(url, '/'), 0)
}

/// The first part of `s` split at `sep`.
fn before_first<'a>(s: &'a str, sep: char) -> (t: &'a str)
    ensures
        t@ == spec_split(s@, sep)[0],
{
    let pieces = split_char(s, sep);
    proof {
        lemma_split_nonempty(s@, sep);
        assert(str_views(pieces@)[0] == pieces@[0]@);
    }
    pieces[0]
}

/// Extracts `(username, tweet_id)` from an X or Twitter URL.
///
/// Handles `https://x.com/user/status/1234567890` and
/// `https://twitter.com/user/status/1234567890`.
pub fn extract_tweet_info<'a>(url: &'a str) -> (r: Option<(&'a str, &'a str)>)
    ensures
        r matches Some((u, id)) ==> spec_tweet_info(url@) == Some((u@, id@)),
        r is None ==> spec_tweet_info(url@) is None,
{
    let parts = split_char(url, '/');
    let ghost views = str_views(parts@);
    let mut i: usize = 0;
    while i < parts.len()
        invariant
            views == str_views(parts@),
            views == spec_split(url@, '/'),
            i <= parts@.len(),
            tweet_info_from(views, 0) == tweet_info_from(views, i as int),
        decreases parts@.len() - i,
    {
        proof {
            assert(views[i as int] == parts@[i as int]@);
        }
        if str_eq(parts[i], "status") && i + 1 < parts.len() {
            proof {
                assert(views[i + 1] == parts@[i + 1]@);
            }
            let id = before_first(before_first(parts[i + 1], '?'), '#');
            if id.unicode_len() > 0 && crate::text::is_all_ascii_digits(id) {
                let username = if i >= 1 {
                    proof {
                        assert(views[i - 1] == parts@[i - 1]@);
                    }
                    parts[i - 1]
                } else {
                    proof {
                        reveal_strlit("");
                        assert(""@ =~= Seq::<char>::empty());
                    }
                    ""
                };
                return Some((username, id));
            }
        }
        i = i + 1;
    }
    None
}

/// Extracts only the tweet ID.
pub fn extract_tweet_id<'a>(url: &'a str) -> (r: Option<&'a str>)
    ensures
        r matches Some(id) ==> spec_tweet_info(url@) matches Some((_, i)) && i == id@,
        r is None ==> spec_tweet_info(url@) is None,
{
    match extract_tweet_info(url) {
        Some((_, id)) => Some(id),
        None => None,
    }
}


// ---------------------------------------------------------------------------
// Where tweet data comes from
// ---------------------------------------------------------------------------

/// A service that tweet data can be fetched from.
#[derive(Clone, Copy, Debug, PartialEq, Eq, Structural)]
pub enum TweetSource {
    /// `api.fxtwitter.com`: no auth, rich data including metrics.
    FxTwitter,
    /// X API v2: needs a bearer token.
    ApiV2,
    /// `publish.twitter.com/oembed`: no auth, author name and text only.
    OEmbed,
}

/// The sources to try, in order: fxtwitter when the URL names a user, the
/// X API when a bearer token is configured, and oEmbed last.
pub open spec fn spec_fetch_plan(tweet_url: Seq<char>, has_bearer_token: bool) -> Seq<TweetSource> {
    let username = match spec_tweet_info(tweet_url) {
        Some((u, _)) => u,
        None => Seq::empty(),
    };
    (if username.len() > 0 {
        seq![TweetSource::FxTwitter]
    } else {
        Seq::empty()
    }) + (if has_bearer_token {
        seq![TweetSource::ApiV2]
    } else {
        Seq::empty()
    }) + seq![TweetSource::OEmbed]
}

/// The order in which the sources of tweet data are tried; the first one
/// that answers gives the data.
pub fn fetch_plan(tweet_url: &str, has_bearer_token: bool) -> (plan: Vec<TweetSource>)
    ensures
        plan@ == spec_fetch_plan(tweet_url@, has_bearer_token),
{
    let mut plan: Vec<TweetSource> = Vec::new();
    let has_username = match extract_tweet_info(tweet_url) {
        Some((u, _)) => u.unicode_len() > 0,
        None => false,
    };
    if has_username {
        plan.push(TweetSource::FxTwitter);
    }
    if has_bearer_token {
        plan.push(TweetSource::ApiV2);
    }
    plan.push(TweetSource::OEmbed);
    proof {
        assert(plan@ =~= spec_fetch_plan(tweet_url@, has_bearer_token));
    }
    plan
}

/// `https://api.fxtwitter.com/{username}/status/{tweet_id}`
pub fn fxtwitter_api_url(username: &str, tweet_id: &str) -> (u: String)
    ensures
        u@ == "https://api.fxtwitter.com/"@ + username@ + "/status/"@ + tweet_id@,
{
    String::from_str("https://api.fxtwitter.com/").concat(username).concat("/status/").concat(
        tweet_id,
    )
}

/// `https://x.com/{username}/status/{tweet_id}`, the link of a tweet found
/// through fxtwitter.
pub fn fxtwitter_tweet_url(username: &str, tweet_id: &str) -> (u: String)
    ensures
        u@ == "https://x.com/"@ + username@ + "/status/"@ + tweet_id@,
{
    String::from_str("https://x.com/").concat(username).concat("/status/").concat(tweet_id)
}

/// The X API v2 request for a tweet, with its author and public metrics.
pub fn api_v2_url(tweet_id: &str) -> (u: String)
    ensures
        u@ == "https://api.twitter.com/2/tweets/"@ + tweet_id@
            + "?expansions=author_id&user.fields=name,username&tweet.fields=public_metrics"@,
{
    String::from_str("https://api.twitter.com/2/tweets/").concat(tweet_id).concat(
        "?expansions=author_id&user.fields=name,username&tweet.fields=public_metrics",
    )
}

/// `https://x.com/i/web/status/{tweet_id}`, the link of a tweet found
/// through the X API.
pub fn api_v2_tweet_url(tweet_id: &str) -> (u: String)
    ensures
        u@ == "https://x.com/i/web/status/"@ + tweet_id@,
{
    String::from_str("https://x.com/i/web/status/").concat(tweet_id)
}

/// The oEmbed request for a tweet URL.
pub fn oembed_url(tweet_url: &str) -> (u: String)
    ensures
        u@ == "https://publish.twitter.com/oembed?url="@ + tweet_url@ + "&omit_script=true"@,
{
    String::from_str("https://publish.twitter.com/oembed?url=").concat(tweet_url).concat(
        "&omit_script=true",
    )
}

/// The text of an optional string field, `""` when absent.
pub open spec fn field_or_empty(s: Option<&str>) -> Seq<char> {
    match s {
        Some(t) => t@,
        None => Seq::empty(),
    }
}

fn owned_or_empty(s: Option<&str>) -> (t: String)
    ensures
        t@ == field_or_empty(s),
{
    match s {
        Some(v) => String::from_str(v),
        None => String::new(),
    }
}

/// Plain owned copy of a string slice.
fn owned(s: &str) -> (t: String)
    ensures
        t@ == s@,
{
    String::from_str(s)
}

impl TweetData {
    /// What is shown when no source answered: only the link.
    pub fn unavailable(tweet_url: &str) -> (t: TweetData)
        ensures
            t.text@.len() == 0,
            t.author_name@.len() == 0,
            t.author_username@.len() == 0,
            t.url@ == tweet_url@,
            t.like_count is None,
            t.retweet_count is None,
            t.reply_count is None,
    {
        TweetData {
            text: String::new(),
            author_name: String::new(),
            author_username: String::new(),
            url: owned(tweet_url),
            like_count: None,
            retweet_count: None,
            reply_count: None,
        }
    }
}

/// The counters of a tweet, as the source reports them.
#[derive(Clone, Copy, Debug)]
pub struct TweetMetrics {
    pub likes: Option<u64>,
    pub retweets: Option<u64>,
    pub replies: Option<u64>,
}

impl TweetData {
    /// The tweet from an fxtwitter answer: `tweet.text`, `tweet.author.name`,
    /// `tweet.author.screen_name` (each `""` when missing) and the counters;
    /// its link is the x.com status link of `username`.
    pub fn from_fxtwitter(
        username: &str,
        tweet_id: &str,
        text: Option<&str>,
        author_name: Option<&str>,
        screen_name: Option<&str>,
        metrics: TweetMetrics,
    ) -> (t: TweetData)
        ensures
            t.text@ == field_or_empty(text),
            t.author_name@ == field_or_empty(author_name),
            t.author_username@ == field_or_empty(screen_name),
            t.url@ == "https://x.com/"@ + username@ + "/status/"@ + tweet_id@,
            t.like_count == metrics.likes,
            t.retweet_count == metrics.retweets,
            t.reply_count == metrics.replies,
    {
        TweetData {
            text: owned_or_empty(text),
            author_name: owned_or_empty(author_name),
            author_username: owned_or_empty(screen_name),
            url: fxtwitter_tweet_url(username, tweet_id),
            like_count: metrics.likes,
            retweet_count: metrics.retweets,
            reply_count: metrics.replies,
        }
    }

    /// The tweet from an X API v2 answer: `data.text`,
    /// `includes.users[0].name` and `.username` (each `""` when missing) and
    /// `data.public_metrics`; its link is the x.com web status link.
    pub fn from_api_v2(
        tweet_id: &str,
        text: Option<&str>,
        author_name: Option<&str>,
        author_username: Option<&str>,
        metrics: TweetMetrics,
    ) -> (t: TweetData)
        ensures
            t.text@ == field_or_empty(text),
            t.author_name@ == field_or_empty(author_name),
            t.author_username@ == field_or_empty(author_username),
            t.url@ == "https://x.com/i/web/status/"@ + tweet_id@,
            t.like_count == metrics.likes,
            t.retweet_count == metrics.retweets,
            t.reply_count == metrics.replies,
    {
        TweetData {
            text: owned_or_empty(text),
            author_name: owned_or_empty(author_name),
            author_username: owned_or_empty(author_username),
            url: api_v2_tweet_url(tweet_id),
            like_count: metrics.likes,
            retweet_count: metrics.retweets,
            reply_count: metrics.replies,
        }
    }

    /// The tweet from an oEmbed answer: `author_name` (`""` when missing) and
    /// the text of the embed `html`; no username or counters; its link is
    /// the link asked about.
    pub fn from_oembed(tweet_url: &str, author_name: Option<&str>, html: Option<&str>) -> (t: TweetData)
        ensures
            t.text@ == match html {
                Some(h) => match spec_oembed_text(h@) {
                    Some(text) => text,
                    None => Seq::empty(),
                },
                None => Seq::empty(),
            },
            t.author_name@ == field_or_empty(author_name),
            t.author_username@.len() == 0,
            t.url@ == tweet_url@,
            t.like_count is None,
            t.retweet_count is None,
            t.reply_count is None,
    {
        let text = match html {
            Some(h) => oembed_text(h),
            None => String::new(),
        };
        TweetData {
            text,
            author_name: owned_or_empty(author_name),
            author_username: String::new(),
            url: owned(tweet_url),
            like_count: None,
            retweet_count: None,
            reply_count: None,
        }
    }
}

// ---------------------------------------------------------------------------
// Text of an oEmbed snippet
// ---------------------------------------------------------------------------

/// `s` without markup: every character between a `'<'` and the next `'>'`
/// is dropped, and so are the brackets.
pub open spec fn strip_tags(s: Seq<char>, in_tag: bool) -> Seq<char>
    decreases s.len(),
{
    if s.len() == 0 {
        Seq::empty()
    } else if s[0] == '<' {
        strip_tags(s.drop_first(), true)
    } else if s[0] == '>' {
        strip_tags(s.drop_first(), false)
    } else if !in_tag {
        seq![s[0]] + strip_tags(s.drop_first(), false)
    } else {
        strip_tags(s.drop_first(), true)
    }
}

/// The text of the first `<p ...>...</p>` of an embed snippet, markup
/// removed: the paragraph starts after the first `'>'` that follows the
/// first `"<p"`, and ends at the first `"</p>"` after that.
pub open spec fn spec_oembed_text(html: Seq<char>) -> Option<Seq<char>> {
    match find_str(html, "<p"@) {
        Some(start) => match find_char(html.skip(start), '>') {
            Some(gt) => {
                let after = start + gt + 1;
                match find_str(html.skip(after), "</p>"@) {
                    Some(len) => Some(strip_tags(html.subrange(after, after + len), false)),
                    None => None,
                }
            },
            None => None,
        },
        None => None,
    }
}

/// Removes markup from `chars[from..to]`.
fn strip_tags_range(chars: &Vec<char>, from: usize, to: usize) -> (out: String)
    requires
        from <= to <= chars@.len(),
    ensures
        out@ == strip_tags(chars@.subrange(from as int, to as int), false),
{
    let mut out = String::new();
    let mut in_tag = false;
    let mut i = from;
    let ghost whole = chars@.subrange(from as int, to as int);
    proof {
        assert(chars@.subrange(from as int, to as int) =~= whole);
    }
    while i < to
        invariant
            from <= i <= to <= chars@.len(),
            whole == chars@.subrange(from as int, to as int),
            out@ + strip_tags(chars@.subrange(i as int, to as int), in_tag) == strip_tags(whole, false),
        decreases to - i,
    {
        let c = chars[i];
        proof {
            let rest = chars@.subrange(i as int, to as int);
            assert(rest[0] == c);
            assert(rest.drop_first() =~= chars@.subrange(i + 1, to as int));
        }
        if c == '<' {
            in_tag = true;
        } else if c == '>' {
            in_tag = false;
        } else if !in_tag {
            let ghost before = out@;
            push_char(&mut out, c);
            proof {
                assert(out@ + strip_tags(chars@.subrange(i + 1, to as int), false) =~= before + (
                seq![c] + strip_tags(chars@.subrange(i + 1, to as int), false)));
            }
        }
        i = i + 1;
    }
    proof {
        assert(chars@.subrange(to as int, to as int) =~= Seq::<char>::empty());
        assert(out@ + Seq::<char>::empty() =~= out@);
    }
    out
}

/// Extracts the tweet text from the embed HTML of an oEmbed answer (`""`
/// when it holds no paragraph).
pub fn oembed_text(html: &str) -> (t: String)
    ensures
        t@ == match spec_oembed_text(html@) {
            Some(text) => text,
            None => Seq::empty(),
        },
{
    let chars = chars_of(html);
    let n = chars.len();
    let start = match find_in(&chars, "<p") {
        Some(k) => k,
        None => return String::new(),
    };
    proof {
        crate::text::lemma_find_str(chars@, "<p"@);
    }
    let mut j = start;
    while j < n && chars[j] != '>'
        invariant
            chars@ == html@,
            n == html@.len(),
            start <= j <= n,
            forall|t: int| start <= t < j ==> html@[t] != '>',
        decreases n - j,
    {
        j = j + 1;
    }
    let ghost tail = html@.skip(start as int);
    if j == n {
        proof {
            assert forall|t: int| 0 <= t < tail.len() implies tail[t] != '>' by {
                assert(tail[t] == html@[start + t]);
            }
            lemma_find_char_none(tail, '>');
        }
        return String::new();
    }
    proof {
        assert forall|t: int| 0 <= t < j - start implies tail[t] != '>' by {
            assert(tail[t] == html@[start + t]);
        }
        lemma_find_char_at(tail, '>', (j - start) as int);
    }
    let after = j + 1;
    let rest = chars_tail(&chars, after);
    let len = match find_in(&rest, "</p>") {
        Some(k) => k,
        None => return String::new(),
    };
    proof {
        crate::text::lemma_find_str(rest@, "</p>"@);
    }
    strip_tags_range(&chars, after, after + len)
}

/// `chars[from..]` as a vector.
fn chars_tail(chars: &Vec<char>, from: usize) -> (v: Vec<char>)
    requires
        from <= chars@.len(),
    ensures
        v@ == chars@.skip(from as int),
{
    let mut v: Vec<char> = Vec::new();
    let mut i = from;
    while i < chars.len()
        invariant
            from <= i <= chars@.len(),
            v@ == chars@.subrange(from as int, i as int),
        decreases chars@.len() - i,
    {
        v.push(chars[i]);
        proof {
            assert(v@ =~= chars@.subrange(from as int, i + 1));
        }
        i = i + 1;
    }
    proof {
        assert(v@ =~= chars@.skip(from as int));
    }
    v
}

} // verus!
