use larkstack::linear::extract_identifier_from_url;
use larkstack::text::{first_line, join, split_char, strip_prefix, take_chars, trim};
use larkstack::utils::{priority_color, priority_display, truncate, verify_hmac_sha256};
use larkstack::x::{
    extract_tweet_id, extract_tweet_info, fetch_plan, oembed_text, TweetData, TweetMetrics,
    TweetSource,
};

#[test]
fn truncate_keeps_short_text() {
    assert_eq!(truncate("hello", 5), "hello");
    assert_eq!(truncate("", 0), "");
}

#[test]
fn truncate_cuts_by_characters_and_marks_the_cut() {
    assert_eq!(truncate("hello world", 5), "hello…");
    assert_eq!(truncate("日本語のテキスト", 3), "日本語…");
    assert_eq!(truncate("abc", 0), "…");
}

#[test]
fn trim_removes_unicode_white_space() {
    assert_eq!(trim("  a b \n"), "a b");
    assert_eq!(trim("\u{3000}x\u{a0}"), "x");
    assert_eq!(trim("   "), "");
}

#[test]
fn split_matches_str_split() {
    assert_eq!(split_char("a/b//c/", '/'), vec!["a", "b", "", "c", ""]);
    assert_eq!(split_char("", ','), vec![""]);
}

#[test]
fn strip_prefix_and_take() {
    assert_eq!(strip_prefix("refs/heads/main", "refs/heads/"), Some("main"));
    assert_eq!(strip_prefix("main", "refs/heads/"), None);
    assert_eq!(take_chars("0123456789abcdef", 7), "0123456");
    assert_eq!(take_chars("abc", 7), "abc");
}

#[test]
fn first_line_follows_lines() {
    assert_eq!(first_line("fix bug\r\n\nmore"), "fix bug");
    assert_eq!(first_line("one"), "one");
    assert_eq!(first_line(""), "");
    assert_eq!(first_line("\nsecond"), "");
    assert_eq!(first_line("a\r"), "a\r");
}

#[test]
fn join_puts_separator_between_items() {
    let v = vec!["a".to_string(), "b".to_string(), "c".to_string()];
    assert_eq!(join(&v, "\n"), "a\nb\nc");
    assert_eq!(join(&[], ", "), "");
}

#[test]
fn priority_helpers() {
    assert_eq!(priority_display(1), "🔴 Urgent");
    assert_eq!(priority_display(9), "⚪ None");
    assert_eq!(priority_color(1), "red");
    assert_eq!(priority_color(2), "orange");
    assert_eq!(priority_color(3), "yellow");
    assert_eq!(priority_color(4), "blue");
    assert_eq!(priority_color(0), "grey");
}

#[test]
fn hmac_sha256_known_vector() {
    // RFC 4231, test case 2.
    let tag = "5bdcc146bf60754e6a042426089575c75a003f089d2739839dec58b964ec3843";
    assert!(verify_hmac_sha256("Jefe", b"what do ya want for nothing?", tag));
    assert!(verify_hmac_sha256("Jefe", b"what do ya want for nothing?", &tag.to_uppercase()));
}

#[test]
fn hmac_sha256_rejects_wrong_tags() {
    let tag = "5bdcc146bf60754e6a042426089575c75a003f089d2739839dec58b964ec3843";
    assert!(!verify_hmac_sha256("Jefe", b"what do ya want for nothing!", tag));
    assert!(!verify_hmac_sha256("jefe", b"what do ya want for nothing?", tag));
    assert!(!verify_hmac_sha256("Jefe", b"what do ya want for nothing?", &tag[..62]));
    assert!(!verify_hmac_sha256("Jefe", b"what do ya want for nothing?", &tag[..63]));
    assert!(!verify_hmac_sha256("Jefe", b"what do ya want for nothing?", "zz"));
    assert!(!verify_hmac_sha256("Jefe", b"what do ya want for nothing?", ""));
}

#[test]
fn identifier_from_linear_url() {
    assert_eq!(
        extract_identifier_from_url("https://linear.app/workspace/issue/LIN-123/some-slug"),
        Some("LIN-123".to_string())
    );
    assert_eq!(extract_identifier_from_url("https://linear.app/ws/issue/ENG-7"), Some("ENG-7".to_string()));
}

#[test]
fn identifier_needs_dash_and_number() {
    assert_eq!(extract_identifier_from_url("https://linear.app/ws/issue/settings"), None);
    assert_eq!(extract_identifier_from_url("https://linear.app/ws/issue/ENG-x1"), None);
    assert_eq!(extract_identifier_from_url("https://linear.app/ws/issue"), None);
    assert_eq!(extract_identifier_from_url("https://linear.app/ws/project/ENG-1"), None);
    // A number is needed after the last dash.
    assert_eq!(extract_identifier_from_url("https://linear.app/ws/issue/ENG-"), None);
    assert_eq!(extract_identifier_from_url("https://linear.app/w/issue/ENG-/slug"), None);
    assert_eq!(extract_identifier_from_url("https://linear.app/w/issue/A-B-12/slug"), Some("A-B-12".to_string()));
}

#[test]
fn tweet_info_from_x_and_twitter_urls() {
    assert_eq!(extract_tweet_info("https://x.com/user/status/1234567890"), Some(("user", "1234567890")));
    assert_eq!(
        extract_tweet_info("https://twitter.com/jack/status/20?s=20#frag"),
        Some(("jack", "20"))
    );
    assert_eq!(extract_tweet_id("https://x.com/user/status/42#top"), Some("42"));
    assert_eq!(extract_tweet_info("https://x.com/user/status/abc"), None);
    assert_eq!(extract_tweet_info("https://x.com/user/status/"), None);
    assert_eq!(extract_tweet_info("https://x.com/user"), None);
    assert_eq!(extract_tweet_info("status/99"), Some(("", "99")));
}

#[test]
fn fetch_plan_orders_sources() {
    assert_eq!(
        fetch_plan("https://x.com/user/status/1", true),
        vec![TweetSource::FxTwitter, TweetSource::ApiV2, TweetSource::OEmbed]
    );
    assert_eq!(fetch_plan("https://x.com/user/status/1", false), vec![TweetSource::FxTwitter, TweetSource::OEmbed]);
    assert_eq!(fetch_plan("status/1", true), vec![TweetSource::ApiV2, TweetSource::OEmbed]);
}

#[test]
fn oembed_text_strips_markup() {
    let html = "<blockquote class=\"twitter-tweet\"><p lang=\"en\" dir=\"ltr\">Hello <a href=\"x\">@world</a>!</p>&mdash; A (@a)</blockquote>";
    assert_eq!(oembed_text(html), "Hello @world!");
    assert_eq!(oembed_text("<div>no paragraph</div>"), "");
    assert_eq!(oembed_text("<p>unterminated"), "");
}

#[test]
fn tweet_data_builders() {
    let m = TweetMetrics { likes: Some(3), retweets: None, replies: Some(1) };
    let t = TweetData::from_fxtwitter("user", "7", Some("hi"), Some("User"), None, m);
    assert_eq!(t.url, "https://x.com/user/status/7");
    assert_eq!(t.text, "hi");
    assert_eq!(t.author_username, "");
    assert_eq!(t.like_count, Some(3));
    let t = TweetData::from_api_v2("7", None, Some("N"), Some("n"), m);
    assert_eq!(t.url, "https://x.com/i/web/status/7");
    assert_eq!(t.text, "");
    let t = TweetData::from_oembed("https://x.com/u/status/7", Some("U"), Some("<p>x</p>"));
    assert_eq!(t.text, "x");
    assert_eq!(t.like_count, None);
    let t = TweetData::unavailable("https://x.com/u/status/7");
    assert_eq!(t.url, "https://x.com/u/status/7");
    assert_eq!(t.text, "");
}
