//! Shared helpers: text truncation and webhook signature checks.

use vstd::prelude::*;

use crate::event::{spec_priority_from_linear, Priority};
use vstd::string::StringSliceAdditionalSpecFns;
use hmac::Mac;

verus! {

broadcast use vstd::string::group_string_axioms;

/// `s` cut to `max_chars` characters, with `"…"` appended when anything was
/// cut.
pub open spec fn spec_truncate(s: Seq<char>, max_chars: nat) -> Seq<char> {
    if s.len() <= max_chars {
        s
    } else {
        s.take(max_chars as int) + "…"@
    }
}

/// Truncation keeps a text that fits; otherwise it keeps exactly the first
/// `max_chars` characters and marks the cut with a single `"…"`.
pub proof fn law_truncate(s: Seq<char>, max_chars: nat)
    ensures
        s.len() <= max_chars ==> spec_truncate(s, max_chars) == s,
        s.len() > max_chars ==> spec_truncate(s, max_chars).len() == max_chars + 1,
        s.len() > max_chars ==> spec_truncate(s, max_chars).take(max_chars as int) == s.take(
            max_chars as int,
        ),
        s.len() > max_chars ==> spec_truncate(s, max_chars).last() == '…',
{
    reveal_strlit("…");
    if s.len() > max_chars {
        let t = spec_truncate(s, max_chars);
        assert(t.take(max_chars as int) =~= s.take(max_chars as int));
    }
}

/// Truncates `s` to at most `max_chars` characters, appending `"…"` when
/// truncation occurs.
pub fn truncate(s: &str, max_chars: usize) -> (t: String)
    ensures
        t@ == spec_truncate(s@, max_chars as nat),
{
    let n = s.unicode_len();
    if n <= max_chars {
        String::from_str(s)
    } else {
        let head = String::from_str(s.substring_char(0, max_chars));
        head.concat("…")
    }
}


/// The Lark header color template for a Linear numeric priority.
pub open spec fn spec_priority_color(priority: u8) -> Seq<char> {
    match spec_priority_from_linear(priority) {
        Priority::Urgent => "red"@,
        Priority::High => "orange"@,
        Priority::Medium => "yellow"@,
        Priority::Low => "blue"@,
        Priority::NoPriority => "grey"@,
    }
}

/// Header color template for a Linear numeric priority.
pub fn priority_color(priority: u8) -> (c: &'static str)
    ensures
        c@ == spec_priority_color(priority),
{
    match Priority::from_linear(priority) {
        Priority::Urgent => "red",
        Priority::High => "orange",
        Priority::Medium => "yellow",
        Priority::Low => "blue",
        Priority::NoPriority => "grey",
    }
}

/// `"{emoji} {label}"` for a Linear numeric priority.
pub fn priority_display(priority: u8) -> (s: String)
    ensures
        s@ == spec_priority_from_linear(priority).spec_display(),
{
    Priority::from_linear(priority).display()
}


// ---------------------------------------------------------------------------
// Webhook signatures
// ---------------------------------------------------------------------------

/// The value of an ASCII hex digit (either case).
pub open spec fn hex_value(b: u8) -> Option<u8> {
    if 0x41 <= b <= 0x46 {
        Some((b - 0x41 + 10) as u8)
    } else if 0x61 <= b <= 0x66 {
        Some((b - 0x61 + 10) as u8)
    } else if 0x30 <= b <= 0x39 {
        Some((b - 0x30) as u8)
    } else {
        None
    }
}

/// The bytes that a hex text stands for: two digits per byte, high digit
/// first; `None` for an odd length or a byte that is not a hex digit.
pub open spec fn spec_hex_decode(s: Seq<u8>) -> Option<Seq<u8>>
    decreases s.len(),
{
    if s.len() % 2 != 0 {
        None
    } else if s.len() == 0 {
        Some(Seq::empty())
    } else {
        match (hex_value(s[0]), hex_value(s[1]), spec_hex_decode(s.skip(2))) {
            (Some(h), Some(l), Some(rest)) => Some(seq![(h * 16 + l) as u8] + rest),
            _ => None,
        }
    }
}

/// Declares `hex::FromHexError`.
#[verifier::external_type_specification]
#[verifier::external_body]
pub struct ExFromHexError(hex::FromHexError);

/// `hex::decode`: decodes a hex text, as `spec_hex_decode` states (its
/// source checks for an even length, then maps each pair of digits through
/// `0-9`, `a-f`, `A-F`).
#[verifier::external_body]
fn hex_decode(data: &str) -> (r: Result<Vec<u8>, hex::FromHexError>)
    ensures
        r matches Ok(v) ==> spec_hex_decode(data.spec_bytes()) == Some(v@),
        r is Err ==> spec_hex_decode(data.spec_bytes()) is None,
{
    hex::decode(data)
}

/// The name for HMAC-SHA256 of `message` under `key` (RFC 2104 with
/// SHA-256), as the `hmac` and `sha2` crates compute it.
pub uninterp spec fn spec_hmac_sha256(key: Seq<u8>, message: Seq<u8>) -> Seq<u8>;

/// `Hmac::<Sha256>::new_from_slice`, `Mac::update` and `Mac::verify_slice`:
/// whether `tag` is the HMAC-SHA256 of `message` under `key`. The source
/// of `new_from_slice` accepts keys of any length (longer ones are hashed),
/// and `verify_slice` compares the whole tag, length included, in constant
/// time.
#[verifier::external_body]
fn hmac_sha256_matches(key: &[u8], message: &[u8], tag: &[u8]) -> (b: bool)
    ensures
        b == (tag@ == spec_hmac_sha256(key@, message@)),
{
    match hmac::Hmac::<sha2::Sha256>::new_from_slice(key) {
        Ok(mut mac) => {
            mac.update(message);
            mac.verify_slice(tag).is_ok()
        },
        Err(_) => false,
    }
}

/// Whether `expected_hex` is the hex form of the HMAC-SHA256 of `body`
/// under the UTF-8 bytes of `secret`.
pub open spec fn spec_hmac_hex_valid(secret: Seq<u8>, body: Seq<u8>, expected_hex: Seq<u8>) -> bool {
    match spec_hex_decode(expected_hex) {
        Some(tag) => tag == spec_hmac_sha256(secret, body),
        None => false,
    }
}

/// Computes HMAC-SHA256 over `body` using `secret` and compares the
/// hex-encoded result against `expected_hex`.
pub fn verify_hmac_sha256(secret: &str, body: &[u8], expected_hex: &str) -> (b: bool)
    ensures
        b == spec_hmac_hex_valid(secret.spec_bytes(), body@, expected_hex.spec_bytes()),
{
    let expected = match hex_decode(expected_hex) {
        Ok(v) => v,
        Err(_) => return false,
    };
    hmac_sha256_matches(secret.as_bytes(), body, expected.as_slice())
}

} // verus!
