use base64::Engine;
use cbc::cipher::{BlockEncryptMut, KeyIvInit};
use larkstack::cards::{build_action_button, build_assign_dm_card, build_fields, build_lark_card, CardEvent};
use larkstack::config::{LarkConfig, ServerConfig};
use larkstack::event::Event;
use larkstack::lark::{
    accept_token_response, check_send_response, decrypt_lark_payload, default_expire,
    github_webhook, handle_lark_event, linear_preview, open_envelope, route_link_preview,
    token_is_fresh, BotError, EnvelopeStep, LarkDecryptError, LarkEnvelope, LarkEventAction,
    PreviewRoute,
};
use larkstack::linear::build_preview_card;
use larkstack::models::{
    Actor, Assignee, CardElement, CommentData, CommentIssue, Issue, IssueState, LinearIssueAssignee,
    LinearIssueData, LinearIssueState, UpdatedFrom,
};
use larkstack::webhook::{
    classify_linear_webhook, create_dm_email, issue_event, issue_from_event, update_dm_email,
    verify_linear_signature, LinearWebhookKind,
};
use sha2::Digest;

fn issue(description: Option<&str>, assignee: Option<(&str, Option<&str>)>) -> Issue {
    Issue {
        id: "id-1".into(),
        title: "Fix login".into(),
        priority: 2,
        state: IssueState { name: "Todo".into() },
        assignee: assignee.map(|(n, e)| Assignee { name: n.into(), email: e.map(|x| x.into()) }),
        identifier: "ENG-12".into(),
        description: description.map(|d| d.into()),
    }
}

fn md(e: &CardElement) -> &str {
    match e {
        CardElement::Markdown(s) => s,
        _ => panic!("not markdown"),
    }
}

#[test]
fn fields_and_button() {
    match build_fields("Done", "🔴 Urgent", None) {
        CardElement::Fields(f) => assert_eq!(f, vec!["**Status:** Done", "**Priority:** 🔴 Urgent", "**Assignee:** Unassigned"]),
        _ => panic!(),
    }
    match build_action_button("https://l") {
        CardElement::Button { label, url } => {
            assert_eq!(label, "View in Linear");
            assert_eq!(url, "https://l");
        }
        _ => panic!(),
    }
}

#[test]
fn issue_created_card() {
    let i = issue(Some("  Steps to reproduce  "), Some(("Ann", Some("ann@x.io"))));
    let m = build_lark_card(&CardEvent::IssueCreated { issue: &i, url: "https://linear.app/i" });
    assert_eq!(m.msg_type, "interactive");
    assert_eq!(m.card.header.template, "orange");
    assert_eq!(m.card.header.title.content, "[Linear] Created: ENG-12");
    assert_eq!(m.card.header.title.tag, "plain_text");
    assert_eq!(m.card.elements.len(), 4);
    assert_eq!(md(&m.card.elements[0]), "**Fix login**");
    assert_eq!(md(&m.card.elements[1]), "Steps to reproduce");
    match &m.card.elements[2] {
        CardElement::Fields(f) => assert_eq!(f[2], "**Assignee:** Ann"),
        _ => panic!(),
    }
}

#[test]
fn blank_description_is_left_out_and_long_one_cut() {
    let i = issue(Some("   "), None);
    let m = build_lark_card(&CardEvent::IssueCreated { issue: &i, url: "u" });
    assert_eq!(m.card.elements.len(), 3);
    let long = "x".repeat(250);
    let i = issue(Some(&long), None);
    let m = build_lark_card(&CardEvent::IssueCreated { issue: &i, url: "u" });
    assert_eq!(md(&m.card.elements[1]), format!("{}…", "x".repeat(200)));
}

#[test]
fn issue_updated_card_lists_changes() {
    let i = issue(None, None);
    let m = build_lark_card(&CardEvent::IssueUpdated { issue: &i, url: "u", changes: vec!["a".into(), "b".into()] });
    assert_eq!(m.card.header.title.content, "[Linear] Updated: ENG-12");
    assert_eq!(md(&m.card.elements[1]), "a\nb");
    let m = build_lark_card(&CardEvent::IssueUpdated { issue: &i, url: "u", changes: vec![] });
    assert_eq!(m.card.elements.len(), 3);
}

#[test]
fn comment_card() {
    let c = CommentData { id: "c".into(), body: " Looks good ".into(), issue: Some(CommentIssue { identifier: "ENG-3".into(), title: "T".into() }) };
    let a = Actor { name: "Bo".into(), email: None };
    let m = build_lark_card(&CardEvent::CommentCreated { comment: &c, url: "u", actor: Some(&a) });
    assert_eq!(m.card.header.template, "blue");
    assert_eq!(m.card.header.title.content, "[Linear] Comment: ENG-3");
    assert_eq!(md(&m.card.elements[0]), "**Bo** commented on **ENG-3: T**");
    assert_eq!(md(&m.card.elements[1]), "Looks good");
    let c = CommentData { id: "c".into(), body: "  ".into(), issue: None };
    let m = build_lark_card(&CardEvent::CommentCreated { comment: &c, url: "u", actor: None });
    assert_eq!(m.card.header.title.content, "[Linear] Comment: ?");
    assert_eq!(md(&m.card.elements[0]), "**Someone** commented on **an issue**");
    assert_eq!(m.card.elements.len(), 2);
}

#[test]
fn assign_dm_card() {
    let c = build_assign_dm_card(&issue(None, Some(("Ann", None))), "u");
    assert_eq!(c.header.title.content, "[Linear] Assigned: ENG-12");
    assert_eq!(md(&c.elements[0]), "You've been assigned to **ENG-12**\nFix login");
    match &c.elements[1] {
        CardElement::Fields(f) => assert_eq!(f[2], "**Assignee:** Unassigned"),
        _ => panic!(),
    }
}

fn linear_issue() -> LinearIssueData {
    LinearIssueData {
        title: "Crash".into(),
        description: None,
        priority: 1,
        state: LinearIssueState { name: "Todo".into() },
        assignee: Some(LinearIssueAssignee { name: "Ann".into() }),
        url: "https://linear.app/ws/issue/ENG-1".into(),
        identifier: "ENG-1".into(),
    }
}

#[test]
fn preview_card_and_title() {
    let i = linear_issue();
    let c = build_preview_card(&i);
    assert_eq!(c.header.template, "red");
    assert_eq!(c.header.title.content, "[Linear] ENG-1");
    match &c.elements[2] {
        CardElement::Button { url, .. } => assert_eq!(url, "https://linear.app/ws/issue/ENG-1"),
        _ => panic!(),
    }
    let (title, _) = linear_preview(&i);
    assert_eq!(title, "[ENG-1] Crash");
}

fn envelope() -> LarkEnvelope {
    LarkEnvelope {
        encrypt: None,
        kind: None,
        challenge: None,
        header_token: None,
        header_event_type: None,
        event_context_url: None,
        event_url: None,
        event_body_url: None,
    }
}

#[test]
fn challenge_comes_before_token_check() {
    let mut e = envelope();
    e.kind = Some("url_verification".into());
    e.challenge = Some("abc".into());
    assert!(matches!(handle_lark_event(&e, Some("t"), None), LarkEventAction::Challenge(ref c) if c == "abc"));
}

#[test]
fn token_check() {
    let mut e = envelope();
    e.header_token = Some("good".into());
    assert!(matches!(handle_lark_event(&e, Some("bad"), None), LarkEventAction::InvalidToken));
    assert!(matches!(handle_lark_event(&e, Some("bad"), Some("good")), LarkEventAction::Ignore));
    assert!(matches!(handle_lark_event(&e, None, None), LarkEventAction::Ignore));
    assert!(matches!(handle_lark_event(&envelope(), Some("x"), None), LarkEventAction::InvalidToken));
}

#[test]
fn link_preview_url_order() {
    let mut e = envelope();
    e.header_event_type = Some("url.preview.get".into());
    e.event_url = Some("b".into());
    e.event_body_url = Some("c".into());
    assert!(matches!(handle_lark_event(&e, None, None), LarkEventAction::LinkPreview(ref u) if u == "b"));
    e.event_context_url = Some("a".into());
    assert!(matches!(handle_lark_event(&e, None, None), LarkEventAction::LinkPreview(ref u) if u == "a"));
    let mut e = envelope();
    e.header_event_type = Some("url.preview.get".into());
    assert!(matches!(handle_lark_event(&e, None, None), LarkEventAction::LinkPreview(ref u) if u.is_empty()));
}

#[test]
fn preview_routes() {
    assert!(matches!(route_link_preview("https://x.com/u/status/5", false), PreviewRoute::Tweet { ref tweet_id } if tweet_id == "5"));
    assert!(matches!(route_link_preview("https://linear.app/w/issue/A-1", false), PreviewRoute::NoLinearClient));
    assert!(matches!(route_link_preview("https://linear.app/w/issue/A-1", true), PreviewRoute::Linear { ref identifier } if identifier == "A-1"));
    assert!(matches!(route_link_preview("https://example.com", true), PreviewRoute::NoIdentifier));
}

fn encrypt(key: &str, iv: [u8; 16], plain: &[u8]) -> String {
    let k = sha2::Sha256::digest(key.as_bytes());
    let enc = cbc::Encryptor::<aes::Aes256>::new_from_slices(&k, &iv).unwrap();
    let ct = enc.encrypt_padded_vec_mut::<cbc::cipher::block_padding::Pkcs7>(plain);
    let mut all = iv.to_vec();
    all.extend_from_slice(&ct);
    base64::engine::general_purpose::STANDARD.encode(all)
}

#[test]
fn decrypts_lark_payload() {
    let data = encrypt("test key", [7u8; 16], b"{\"challenge\":\"x\"}");
    assert_eq!(decrypt_lark_payload("test key", &data).unwrap(), b"{\"challenge\":\"x\"}".to_vec());
    assert!(matches!(decrypt_lark_payload("other key", &data), Err(LarkDecryptError::Decrypt) | Ok(_)));
    assert_ne!(decrypt_lark_payload("other key", &data).ok(), Some(b"{\"challenge\":\"x\"}".to_vec()));
    assert_eq!(decrypt_lark_payload("k", "not base64!"), Err(LarkDecryptError::Base64Decode));
    assert_eq!(decrypt_lark_payload("k", "AAAA"), Err(LarkDecryptError::TooShort));
    let short_ct = base64::engine::general_purpose::STANDARD.encode([1u8; 20]);
    assert_eq!(decrypt_lark_payload("k", &short_ct), Err(LarkDecryptError::Decrypt));
}

#[test]
fn envelope_opening() {
    assert!(matches!(open_envelope(&envelope(), Some("k")), EnvelopeStep::Plain));
    let mut e = envelope();
    e.encrypt = Some(encrypt("k", [1u8; 16], b"{}"));
    assert!(matches!(open_envelope(&e, None), EnvelopeStep::KeyNotConfigured));
    assert!(matches!(open_envelope(&e, Some("k")), EnvelopeStep::Decrypted(ref p) if p == b"{}"));
    e.encrypt = Some("%%%".into());
    assert!(matches!(open_envelope(&e, Some("k")), EnvelopeStep::DecryptionFailed(LarkDecryptError::Base64Decode)));
}

#[test]
fn bot_token_bookkeeping() {
    assert_eq!(default_expire(), 7200);
    assert!(token_is_fresh("t", 1_000_000, 600_000));
    assert!(!token_is_fresh("t", 900_000, 600_000));
    assert!(!token_is_fresh("", 10_000_000, 0));
    assert!(matches!(accept_token_response(0, Some("tok".into()), 7200, 1_000), Ok((ref t, 7_201_000)) if t == "tok"));
    assert!(matches!(accept_token_response(0, Some("tok".into()), u64::MAX, 1), Ok((_, u64::MAX))));
    assert!(matches!(accept_token_response(99, Some("tok".into()), 7200, 0), Err(BotError::TokenApiCode(99))));
    assert!(matches!(accept_token_response(0, None, 7200, 0), Err(BotError::MissingToken)));
    assert!(check_send_response(true, Some(0)).is_ok());
    assert!(matches!(check_send_response(false, Some(0)), Err(BotError::HttpStatus)));
    assert!(matches!(check_send_response(true, None), Err(BotError::UnparsableResponse)));
    assert!(matches!(check_send_response(true, Some(5)), Err(BotError::ApiCode(5))));
}

#[test]
fn webhook_choice() {
    assert_eq!(github_webhook("g", "l"), Some("g"));
    assert_eq!(github_webhook("", "l"), Some("l"));
    assert_eq!(github_webhook("", ""), None);
}

#[test]
fn config_values() {
    let c = ServerConfig::default();
    assert_eq!(c.port, 3000);
    assert_eq!(c.debounce_delay_ms, 30000);
    let lark = LarkConfig { webhook_url: "w".into(), target_chat_id: None, app_id: Some("id".into()), app_secret: Some("s".into()), verification_token: None };
    assert_eq!(lark.bot_credentials(), Some(("id".to_string(), "s".to_string())));
    let lark = LarkConfig { app_secret: None, ..lark };
    assert_eq!(lark.bot_credentials(), None);
}

#[test]
fn linear_webhook_kinds_and_dms() {
    assert_eq!(classify_linear_webhook("Issue", "create"), LinearWebhookKind::IssueCreate);
    assert_eq!(classify_linear_webhook("Issue", "update"), LinearWebhookKind::IssueUpdate);
    assert_eq!(classify_linear_webhook("Comment", "create"), LinearWebhookKind::CommentCreate);
    assert_eq!(classify_linear_webhook("Comment", "remove"), LinearWebhookKind::Other);
    let i = issue(None, Some(("Ann", Some("ann@x.io"))));
    assert_eq!(create_dm_email(&i).as_deref(), Some("ann@x.io"));
    let moved = UpdatedFrom { state: false, priority: None, assignee: true, assignee_id: Some("u0".into()) };
    let renamed = UpdatedFrom { state: false, priority: None, assignee: false, assignee_id: None };
    assert_eq!(update_dm_email(&i, &Some(moved)).as_deref(), Some("ann@x.io"));
    assert_eq!(update_dm_email(&i, &Some(renamed)), None);
    assert_eq!(update_dm_email(&i, &None), None);
    let tag = "5bdcc146bf60754e6a042426089575c75a003f089d2739839dec58b964ec3843";
    assert!(verify_linear_signature("Jefe", b"what do ya want for nothing?", tag));
}

#[test]
fn debounced_card_matches_direct_card() {
    let i = issue(Some("desc"), Some(("Ann", Some("ann@x.io"))));
    let ev = issue_event(&i, "https://l", vec!["c1".into()], false);
    assert!(matches!(ev, Event::IssueUpdated { ref source, .. } if source == "linear"));
    let (rebuilt, url) = issue_from_event("id-1", &ev).unwrap();
    let a = build_lark_card(&CardEvent::IssueUpdated { issue: &i, url: "https://l", changes: vec!["c1".into()] });
    let b = build_lark_card(&CardEvent::IssueUpdated { issue: &rebuilt, url: &url, changes: ev.changes().to_vec() });
    assert_eq!(format!("{a:?}"), format!("{b:?}"));
    let pr = Event::SecretScanningAlert { repo: "r".into(), secret_type: "t".into(), url: "u".into() };
    assert!(issue_from_event("x", &pr).is_none());
}
