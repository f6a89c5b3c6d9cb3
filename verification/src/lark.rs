//! Lark platform callbacks (challenge, token check, link previews, the
//! encrypted envelope) and the bookkeeping of the Lark bot.

use vstd::prelude::*;

use crate::linear::{extract_identifier_from_url, spec_identifier_from_url, spec_preview_card};
use crate::models::{LarkCard, LinearIssueData};
use crate::text::str_eq;
use crate::event::opt_str;
use crate::x::{extract_tweet_id, spec_tweet_info};
use vstd::string::StringSliceAdditionalSpecFns;
use vstd::utf8::encode_utf8;
use base64::Engine;
use sha2::Digest;
use cbc::cipher::BlockDecryptMut;
use cbc::cipher::KeyIvInit;

verus! {

broadcast use vstd::string::group_string_axioms;

// ---------------------------------------------------------------------------
// Encrypted envelope
// ---------------------------------------------------------------------------

/// Why an encrypted Lark payload could not be opened.
#[derive(Clone, Copy, Debug, PartialEq, Eq, Structural)]
pub enum LarkDecryptError {
    /// The payload is not standard Base64.
    Base64Decode,
    /// The decoded payload is shorter than one IV.
    TooShort,
    /// AES-256-CBC decryption or PKCS#7 unpadding failed.
    Decrypt,
}

/// The name for what standard Base64 (RFC 4648 alphabet, `=` padding
/// required) decodes `text` into, `None` when it is not valid.
pub uninterp spec fn spec_base64_decode(text: Seq<u8>) -> Option<Seq<u8>>;

/// Declares `base64::DecodeError`.
#[verifier::external_type_specification]
#[verifier::external_body]
pub struct ExDecodeError(base64::DecodeError);

/// `base64::engine::general_purpose::STANDARD.decode`.
#[verifier::external_body]
fn base64_decode(text: &str) -> (r: Result<Vec<u8>, base64::DecodeError>)
    ensures
        r matches Ok(v) ==> spec_base64_decode(text.spec_bytes()) == Some(v@),
        r is Err ==> spec_base64_decode(text.spec_bytes()) is None,
{
    base64::engine::general_purpose::STANDARD.decode(text)
}

/// The name for the SHA-256 digest of `data`.
pub uninterp spec fn spec_sha256(data: Seq<u8>) -> Seq<u8>;

/// `sha2::Sha256::digest`: the SHA-256 digest of `data`, 32 bytes long (the
/// output size of SHA-256).
#[verifier::external_body]
fn sha256(data: &[u8]) -> (r: Vec<u8>)
    ensures
        r@ == spec_sha256(data@),
        r@.len() == 32,
{
    sha2::Sha256::digest(data).to_vec()
}

/// The name for AES-256-CBC decryption of `ciphertext` under `key` and `iv`
/// followed by PKCS#7 unpadding; `None` when the ciphertext is not a whole
/// number of blocks or the padding is malformed.
pub uninterp spec fn spec_aes256_cbc_decrypt(key: Seq<u8>, iv: Seq<u8>, ciphertext: Seq<u8>) -> Option<Seq<u8>>;

/// `cbc::Decryptor::<aes::Aes256>::new_from_slices` and
/// `decrypt_padded_mut::<Pkcs7>`. With a 32-byte key and a 16-byte IV the
/// source of `new_from_slices` always succeeds; decryption fails exactly
/// when the ciphertext is not a whole number of blocks or the padding is
/// malformed, which the name covers.
#[verifier::external_body]
fn aes256_cbc_decrypt(key: &[u8], iv: &[u8], ciphertext: &[u8]) -> (r: Option<Vec<u8>>)
    requires
        key@.len() == 32,
        iv@.len() == 16,
    ensures
        match r {
            Some(p) => spec_aes256_cbc_decrypt(key@, iv@, ciphertext@) == Some(p@),
            None => spec_aes256_cbc_decrypt(key@, iv@, ciphertext@) is None,
        },
{
    let decryptor = match cbc::Decryptor::<aes::Aes256>::new_from_slices(key, iv) {
        Ok(d) => d,
        Err(_) => return None,
    };
    let mut buf = ciphertext.to_vec();
    match decryptor.decrypt_padded_mut::<cbc::cipher::block_padding::Pkcs7>(&mut buf) {
        Ok(plain) => Some(plain.to_vec()),
        Err(_) => None,
    }
}

/// What an encrypted Lark payload holds: Base64 of IV (16 bytes) followed
/// by the AES-256-CBC ciphertext, keyed with SHA-256 of the encrypt key.
pub open spec fn spec_decrypt_lark_payload(encrypt_key: Seq<u8>, encrypted: Seq<u8>) -> Result<Seq<u8>, LarkDecryptError> {
    match spec_base64_decode(encrypted) {
        None => Err(LarkDecryptError::Base64Decode),
        Some(bytes) => if bytes.len() < 16 {
            Err(LarkDecryptError::TooShort)
        } else {
            match spec_aes256_cbc_decrypt(spec_sha256(encrypt_key), bytes.take(16), bytes.skip(16)) {
                Some(plain) => Ok(plain),
                None => Err(LarkDecryptError::Decrypt),
            }
        },
    }
}

/// Decrypts a Lark AES-256-CBC encrypted payload into the bytes of its
/// JSON text.
///
/// Lark sends `{"encrypt": "<base64>"}` when an Encrypt Key is configured.
/// Key = SHA256(encrypt_key), IV = first 16 bytes of decoded data.
pub fn decrypt_lark_payload(encrypt_key: &str, encrypted_data: &str) -> (r: Result<Vec<u8>, LarkDecryptError>)
    ensures
        match r {
            Ok(p) => spec_decrypt_lark_payload(encrypt_key.spec_bytes(), encrypted_data.spec_bytes())
                == Ok::<Seq<u8>, LarkDecryptError>(p@),
            Err(e) => spec_decrypt_lark_payload(encrypt_key.spec_bytes(), encrypted_data.spec_bytes())
                == Err::<Seq<u8>, LarkDecryptError>(e),
        },
{
    let key = sha256(encrypt_key.as_bytes());
    let bytes = match base64_decode(encrypted_data) {
        Ok(b) => b,
        Err(_) => return Err(LarkDecryptError::Base64Decode),
    };
    if bytes.len() < 16 {
        return Err(LarkDecryptError::TooShort);
    }
    let (iv, ciphertext) = bytes.as_slice().split_at(16);
    proof {
        assert(iv@ =~= bytes@.take(16));
        assert(ciphertext@ =~= bytes@.skip(16));
    }
    match aes256_cbc_decrypt(key.as_slice(), iv, ciphertext) {
        Some(plain) => Ok(plain),
        None => Err(LarkDecryptError::Decrypt),
    }
}


// ---------------------------------------------------------------------------
// Event callbacks
// ---------------------------------------------------------------------------

/// The parts of a Lark callback body that the handler reads; each is the
/// string at that path, `None` when absent or not a string.
#[derive(Debug)]
pub struct LarkEnvelope {
    /// `encrypt`
    pub encrypt: Option<String>,
    /// `type`
    pub kind: Option<String>,
    /// `challenge`
    pub challenge: Option<String>,
    /// `header.token`
    pub header_token: Option<String>,
    /// `header.event_type`
    pub header_event_type: Option<String>,
    /// `event.context.url`
    pub event_context_url: Option<String>,
    /// `event.url`
    pub event_url: Option<String>,
    /// `event.body.url`
    pub event_body_url: Option<String>,
}

/// What to do with the raw body of a callback.
#[derive(Debug)]
pub enum EnvelopeStep {
    /// The body is not encrypted: handle it as it is.
    Plain,
    /// The decrypted JSON text to handle in its place.
    Decrypted(Vec<u8>),
    /// Answer 401 with `{"error": "decryption failed"}`.
    DecryptionFailed(LarkDecryptError),
    /// Answer 401 with `{"error": "encrypt key not configured"}`.
    KeyNotConfigured,
}

/// Opens the envelope of a callback: decrypts it with `encrypt_key` when it
/// holds an `encrypt` field.
pub fn open_envelope(raw: &LarkEnvelope, encrypt_key: Option<&str>) -> (step: EnvelopeStep)
    ensures
        raw.encrypt is None ==> step is Plain,
        raw.encrypt matches Some(data) ==> match encrypt_key {
            None => step is KeyNotConfigured,
            Some(key) => match spec_decrypt_lark_payload(encode_utf8(key@), encode_utf8(data@)) {
                Ok(p) => step matches EnvelopeStep::Decrypted(v) && v@ == p,
                Err(e) => step matches EnvelopeStep::DecryptionFailed(e2) && e2 == e,
            },
        },
{
    match &raw.encrypt {
        None => EnvelopeStep::Plain,
        Some(data) => match encrypt_key {
            None => EnvelopeStep::KeyNotConfigured,
            Some(key) => match decrypt_lark_payload(key, data.as_str()) {
                Ok(p) => EnvelopeStep::Decrypted(p),
                Err(e) => EnvelopeStep::DecryptionFailed(e),
            },
        },
    }
}


/// What a (decrypted) callback asks for.
#[derive(Debug)]
pub enum LarkEventAction {
    /// Answer 200 with `{"challenge": ..}`.
    Challenge(String),
    /// Answer 401 with `{"error": "invalid token"}`.
    InvalidToken,
    /// Answer with a link preview of this URL.
    LinkPreview(String),
    /// Answer 200 with `{}`.
    Ignore,
}

/// The mathematical value of a [`LarkEventAction`].
pub enum ActionView {
    Challenge(Seq<char>),
    InvalidToken,
    LinkPreview(Seq<char>),
    Ignore,
}

impl View for LarkEventAction {
    type V = ActionView;

    open spec fn view(&self) -> ActionView {
        match self {
            LarkEventAction::Challenge(c) => ActionView::Challenge(c@),
            LarkEventAction::InvalidToken => ActionView::InvalidToken,
            LarkEventAction::LinkPreview(u) => ActionView::LinkPreview(u@),
            LarkEventAction::Ignore => ActionView::Ignore,
        }
    }
}

/// The characters of an optional string, `""` when absent.
pub open spec fn or_empty(s: Option<Seq<char>>) -> Seq<char> {
    match s {
        Some(t) => t,
        None => Seq::empty(),
    }
}

/// Whether the callback token passes: no token configured, or the incoming
/// token equals one of the configured ones.
pub open spec fn spec_token_ok(
    incoming: Seq<char>,
    verification_token: Option<Seq<char>>,
    x_verification_token: Option<Seq<char>>,
) -> bool {
    let required = verification_token is Some || x_verification_token is Some;
    !required || verification_token == Some(incoming) || x_verification_token == Some(incoming)
}

/// The URL of a `url.preview.get` event: `event.context.url`, else
/// `event.url`, else `event.body.url`, else `""`.
pub open spec fn spec_preview_url(env: LarkEnvelope) -> Seq<char> {
    match env.event_context_url {
        Some(u) => u@,
        None => match env.event_url {
            Some(u) => u@,
            None => or_empty(opt_str(env.event_body_url)),
        },
    }
}

/// What a callback asks for: URL verification challenges are answered
/// before any token check; other callbacks need a matching token when one is
/// configured; link previews are served; everything else is acknowledged.
pub open spec fn spec_event_action(
    env: LarkEnvelope,
    verification_token: Option<Seq<char>>,
    x_verification_token: Option<Seq<char>>,
) -> ActionView {
    if opt_str(env.kind) == Some("url_verification"@) {
        ActionView::Challenge(or_empty(opt_str(env.challenge)))
    } else if !spec_token_ok(
        or_empty(opt_str(env.header_token)),
        verification_token,
        x_verification_token,
    ) {
        ActionView::InvalidToken
    } else if or_empty(opt_str(env.header_event_type)) == "url.preview.get"@ {
        ActionView::LinkPreview(spec_preview_url(env))
    } else {
        ActionView::Ignore
    }
}

fn opt_eq(s: &Option<String>, lit: &str) -> (b: bool)
    ensures
        b == (opt_str(*s) == Some(lit@)),
{
    match s {
        Some(v) => str_eq(v.as_str(), lit),
        None => false,
    }
}

fn str_or_empty(s: &Option<String>) -> (t: &str)
    ensures
        t@ == or_empty(opt_str(*s)),
{
    match s {
        Some(v) => v.as_str(),
        None => {
            proof {
                reveal_strlit("");
                assert(""@ =~= Seq::<char>::empty());
            }
            ""
        },
    }
}

/// Decides what a callback asks for.
pub fn handle_lark_event(
    env: &LarkEnvelope,
    verification_token: Option<&str>,
    x_verification_token: Option<&str>,
) -> (a: LarkEventAction)
    ensures
        a@ == spec_event_action(
            *env,
            match verification_token {
                Some(t) => Some(t@),
                None => None,
            },
            match x_verification_token {
                Some(t) => Some(t@),
                None => None,
            },
        ),
{
    if opt_eq(&env.kind, "url_verification") {
        return LarkEventAction::Challenge(String::from_str(str_or_empty(&env.challenge)));
    }
    let incoming = str_or_empty(&env.header_token);
    let required = verification_token.is_some() || x_verification_token.is_some();
    if required {
        let valid = match verification_token {
            Some(t) => str_eq(t, incoming),
            None => false,
        } || match x_verification_token {
            Some(t) => str_eq(t, incoming),
            None => false,
        };
        if !valid {
            return LarkEventAction::InvalidToken;
        }
    }
    if str_eq(str_or_empty(&env.header_event_type), "url.preview.get") {
        let url = match &env.event_context_url {
            Some(u) => u.clone(),
            None => match &env.event_url {
                Some(u) => u.clone(),
                None => String::from_str(str_or_empty(&env.event_body_url)),
            },
        };
        return LarkEventAction::LinkPreview(url);
    }
    LarkEventAction::Ignore
}

/// Callback verification: URL verification challenges are answered whatever
/// the token; with no token configured nothing is refused; with a token
/// configured, any other callback whose token matches neither configured
/// token is refused, and one that matches is not.
pub proof fn law_callback_token_check(
    env: LarkEnvelope,
    verification_token: Option<Seq<char>>,
    x_verification_token: Option<Seq<char>>,
)
    ensures
        opt_str(env.kind) == Some("url_verification"@) ==> spec_event_action(
            env,
            verification_token,
            x_verification_token,
        ) is Challenge,
        verification_token is None && x_verification_token is None ==> !(spec_event_action(
            env,
            verification_token,
            x_verification_token,
        ) is InvalidToken),
        opt_str(env.kind) != Some("url_verification"@) ==> ((spec_event_action(
            env,
            verification_token,
            x_verification_token,
        ) is InvalidToken) <==> !spec_token_ok(
            or_empty(opt_str(env.header_token)),
            verification_token,
            x_verification_token,
        )),
{
}

// ---------------------------------------------------------------------------
// Link previews
// ---------------------------------------------------------------------------

/// Which preview a link gets.
#[derive(Debug)]
pub enum PreviewRoute {
    /// An X / Twitter status link.
    Tweet { tweet_id: String },
    /// A Linear issue link.
    Linear { identifier: String },
    /// No preview: Linear previews are off (no API key).
    NoLinearClient,
    /// No preview: the link names no Linear issue.
    NoIdentifier,
}

/// The mathematical value of a [`PreviewRoute`].
pub enum RouteView {
    Tweet(Seq<char>),
    Linear(Seq<char>),
    NoLinearClient,
    NoIdentifier,
}

impl View for PreviewRoute {
    type V = RouteView;

    open spec fn view(&self) -> RouteView {
        match self {
            PreviewRoute::Tweet { tweet_id } => RouteView::Tweet(tweet_id@),
            PreviewRoute::Linear { identifier } => RouteView::Linear(identifier@),
            PreviewRoute::NoLinearClient => RouteView::NoLinearClient,
            PreviewRoute::NoIdentifier => RouteView::NoIdentifier,
        }
    }
}

/// X links first; then Linear issue links, when Linear previews are on.
pub open spec fn spec_preview_route(url: Seq<char>, has_linear_client: bool) -> RouteView {
    match spec_tweet_info(url) {
        Some((_, id)) => RouteView::Tweet(id),
        None => if !has_linear_client {
            RouteView::NoLinearClient
        } else {
            match spec_identifier_from_url(url) {
                Some(ident) => RouteView::Linear(ident),
                None => RouteView::NoIdentifier,
            }
        },
    }
}

/// Routes a link to its preview.
pub fn route_link_preview(url: &str, has_linear_client: bool) -> (r: PreviewRoute)
    ensures
        r@ == spec_preview_route(url@, has_linear_client),
{
    if let Some(id) = extract_tweet_id(url) {
        return PreviewRoute::Tweet { tweet_id: String::from_str(id) };
    }
    if !has_linear_client {
        return PreviewRoute::NoLinearClient;
    }
    match extract_identifier_from_url(url) {
        Some(identifier) => PreviewRoute::Linear { identifier },
        None => PreviewRoute::NoIdentifier,
    }
}

/// The inline title of a Linear issue preview: `[{identifier}] {title}`.
pub open spec fn spec_inline_title(issue: LinearIssueData) -> Seq<char> {
    "["@ + issue.identifier@ + "] "@ + issue.title@
}

/// The preview of a fetched Linear issue: its inline title and its card.
pub fn linear_preview(issue: &LinearIssueData) -> (r: (String, LarkCard))
    ensures
        r.0@ == spec_inline_title(*issue),
        r.1@ == spec_preview_card(*issue),
{
    let title = String::from_str("[").concat(issue.identifier.as_str()).concat("] ").concat(
        issue.title.as_str(),
    );
    (title, crate::linear::build_preview_card(issue))
}


// ---------------------------------------------------------------------------
// Bot bookkeeping
// ---------------------------------------------------------------------------

/// Lifetime in seconds of a tenant token whose answer gives none.
pub fn default_expire() -> (e: u64)
    ensures
        e == 7200,
{
    7200
}

/// A tenant token is reused while it has more than five minutes left.
pub open spec fn spec_token_fresh(token_len: nat, expires_at_ms: u64, now_ms: u64) -> bool {
    token_len > 0 && expires_at_ms > now_ms + 300_000
}

/// Whether the cached tenant token can be reused.
pub fn token_is_fresh(token: &str, expires_at_ms: u64, now_ms: u64) -> (b: bool)
    ensures
        b == spec_token_fresh(token@.len(), expires_at_ms, now_ms),
{
    token.unicode_len() > 0 && expires_at_ms > now_ms && expires_at_ms - now_ms > 300_000
}

/// Why the bot API refused a request.
#[derive(Debug)]
pub enum BotError {
    /// The token endpoint answered with a non-zero code.
    TokenApiCode(i64),
    /// The token endpoint answered without a token.
    MissingToken,
    /// The message endpoint answered with a non-success HTTP status.
    HttpStatus,
    /// The message endpoint's answer is not the expected JSON.
    UnparsableResponse,
    /// The message endpoint answered with a non-zero code.
    ApiCode(i64),
}

/// The token to cache from a token answer, with the time (ms) it expires:
/// `expire` seconds after `now_ms` (saturating at the largest time).
pub fn accept_token_response(code: i64, token: Option<String>, expire_secs: u64, now_ms: u64) -> (r:
    Result<(String, u64), BotError>)
    ensures
        code != 0 ==> (r matches Err(BotError::TokenApiCode(c)) && c == code),
        code == 0 && token is None ==> r matches Err(BotError::MissingToken),
        code == 0 && token is Some ==> (r matches Ok((t, exp)) && Some(t@) == opt_str(token) && exp
            == if now_ms + expire_secs * 1000 <= u64::MAX {
            (now_ms + expire_secs * 1000) as u64
        } else {
            u64::MAX
        }),
{
    if code != 0 {
        return Err(BotError::TokenApiCode(code));
    }
    let token = match token {
        Some(t) => t,
        None => return Err(BotError::MissingToken),
    };
    let expires_at = if expire_secs <= (u64::MAX - now_ms) / 1000 {
        proof {
            assert(expire_secs * 1000 <= u64::MAX - now_ms) by (nonlinear_arith)
                requires
                    expire_secs <= (u64::MAX - now_ms) / 1000,
            ;
        }
        now_ms + expire_secs * 1000
    } else {
        proof {
            assert(now_ms + expire_secs * 1000 > u64::MAX) by (nonlinear_arith)
                requires
                    expire_secs > (u64::MAX - now_ms) / 1000,
                    now_ms <= u64::MAX,
            ;
        }
        u64::MAX
    };
    Ok((token, expires_at))
}

/// Checks the answer of the message endpoint: a success status and a body
/// `{"code": 0, ..}`; `code` is `None` when the body does not parse.
pub fn check_send_response(status_success: bool, code: Option<i64>) -> (r: Result<(), BotError>)
    ensures
        !status_success ==> r matches Err(BotError::HttpStatus),
        status_success && code is None ==> r matches Err(BotError::UnparsableResponse),
        forall|c: i64|
            status_success && code == Some(c) && c != 0 ==> (r matches Err(BotError::ApiCode(c2))
                && c2 == c),
        r is Ok <==> (status_success && code == Some(0i64)),
{
    if !status_success {
        return Err(BotError::HttpStatus);
    }
    match code {
        None => Err(BotError::UnparsableResponse),
        Some(c) => if c != 0 {
            Err(BotError::ApiCode(c))
        } else {
            Ok(())
        },
    }
}

/// The message endpoint for direct messages to an email address.
pub fn dm_endpoint() -> (u: &'static str)
    ensures
        u@ == "https://open.larksuite.com/open-apis/im/v1/messages?receive_id_type=email"@,
{
    "https://open.larksuite.com/open-apis/im/v1/messages?receive_id_type=email"
}

/// The message endpoint for group chats.
pub fn chat_endpoint() -> (u: &'static str)
    ensures
        u@ == "https://open.larksuite.com/open-apis/im/v1/messages?receive_id_type=chat_id"@,
{
    "https://open.larksuite.com/open-apis/im/v1/messages?receive_id_type=chat_id"
}

/// The group webhook for GitHub notifications: the GitHub one when set,
/// else the Linear one; `None` (skip) when that is empty too.
pub fn github_webhook<'a>(github_webhook_url: &'a str, webhook_url: &'a str) -> (r: Option<&'a str>)
    ensures
        github_webhook_url@.len() > 0 ==> (r matches Some(u) && u@ == github_webhook_url@),
        github_webhook_url@.len() == 0 && webhook_url@.len() > 0 ==> (r matches Some(u) && u@
            == webhook_url@),
        github_webhook_url@.len() == 0 && webhook_url@.len() == 0 ==> r is None,
{
    if github_webhook_url.unicode_len() > 0 {
        Some(github_webhook_url)
    } else if webhook_url.unicode_len() > 0 {
        Some(webhook_url)
    } else {
        None
    }
}

} // verus!
