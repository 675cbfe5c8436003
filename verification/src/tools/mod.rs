//! Shared pieces of the tools: output truncation and the envelope that
//! marks a reply as produced by this server.
pub mod docker;
pub mod docker_image;
pub mod proxmox;
pub mod proxmox_ops;
pub mod proxmox_net;
pub mod proxmox_form;
pub mod ssh;
pub mod verify;

use vstd::prelude::*;
use crate::json::{object_text, render_object, JsonValue};
use crate::text::{decimal, owned, push_char, push_str, u64_to_decimal};

verus! {

/// The version written into every envelope.
pub const SERVER_VERSION: &'static str = "0.2.2";

/// Output kept within `max_chars` characters: unchanged when short enough,
/// otherwise a notice line followed by the first `max_chars` characters.
pub open spec fn truncated(output: Seq<char>, max_chars: usize) -> Seq<char> {
    if output.len() <= max_chars {
        output
    } else {
        "[Output truncated. Showing "@ + decimal(max_chars as nat) + " chars of "@ + decimal(
            output.len(),
        ) + " total chars.]\n"@ + output.take(max_chars as int)
    }
}

/// Keeps tool output within `max_chars` characters.
pub fn truncate_output(output: &str, max_chars: usize) -> (r: String)
    ensures
        r@ == truncated(output@, max_chars),
{
    let chars = crate::text::chars_of(output);
    let count = chars.len();
    if count <= max_chars {
        return owned(output);
    }
    let mut r = owned("[Output truncated. Showing ");
    let a = u64_to_decimal(max_chars as u64);
    push_str(&mut r, a.as_str());
    push_str(&mut r, " chars of ");
    let b = u64_to_decimal(count as u64);
    push_str(&mut r, b.as_str());
    push_str(&mut r, " total chars.]\n");
    let kept = crate::text::string_of_range(chars.as_slice(), 0, max_chars);
    assert(kept@ =~= output@.take(max_chars as int));
    push_str(&mut r, kept.as_str());
    r
}

/// Sixteen lower-case hexadecimal digits of `n`, zero-padded, as
/// `format!("{:016x}", n)` writes a `u64`.
pub open spec fn hex16(n: nat) -> Seq<char>
    decreases 16nat,
{
    hex_digits(n, 16)
}

/// The last `k` hexadecimal digits of `n`, most significant first.
pub open spec fn hex_digits(n: nat, k: nat) -> Seq<char>
    decreases k,
{
    if k == 0 {
        seq![]
    } else {
        hex_digits(n / 16, (k - 1) as nat).push(crate::json::hex_char(n % 16))
    }
}

fn hex_digits_exec(n: u64, k: u64) -> (s: String)
    requires
        k <= 16,
    ensures
        s@ == hex_digits(n as nat, k as nat),
    decreases k,
{
    if k == 0 {
        return String::new();
    }
    let mut s = hex_digits_exec(n / 16, k - 1);
    let d = n % 16;
    let c: char = if d < 10 {
        (48 + d as u8) as char
    } else {
        (87 + d as u8) as char
    };
    assert(c == crate::json::hex_char(d as nat));
    push_char(&mut s, c);
    s
}

/// The envelope of a tool reply, as compact JSON with keys in ascending
/// order.
pub open spec fn envelope_text(tool_name: Seq<char>, content: Seq<char>, nonce: Seq<char>, executed_at: Seq<char>) -> Seq<char> {
    "{\"content\":"@ + crate::json::quoted(content) + ",\"data_classification\":\"untrusted_external\",\"executed_at\":"@
        + crate::json::quoted(executed_at) + ",\"server_nonce\":"@ + crate::json::quoted(nonce)
        + ",\"server_version\":\"0.2.2\",\"source\":"@ + crate::json::quoted(tool_name)
        + ",\"type\":\"tool_result\"}"@
}

/// `Uuid::new_v4().as_u128()`: 128 bits from the system's random source;
/// nothing is promised of them.
#[verifier::external_body]
fn random_u128() -> (r: u128) {
    uuid::Uuid::new_v4().as_u128()
}

/// Whether a text has the shape of `to_rfc3339` on a UTC time: a date, `T`,
/// a time and the offset `+00:00`, at least 25 characters in all.
pub open spec fn utc_rfc3339_shape(at: Seq<char>) -> bool {
    &&& at.len() >= 25
    &&& at.contains('T')
    &&& at.subrange(at.len() - 6, at.len() as int) == "+00:00"@
}

/// `chrono::Utc::now().to_rfc3339()`: the current time as RFC 3339 text.
/// chrono writes the date, `T`, the time with at least two-digit fields and
/// the zero offset as `+00:00` (it uses `Z` only when asked to); which time
/// it is depends on the clock, so only that shape is stated.
#[verifier::external_body]
fn now_rfc3339() -> (r: String)
    ensures
        utc_rfc3339_shape(r@),
{
    chrono::Utc::now().to_rfc3339()
}

/// The envelope of a reply with a given nonce and execution time.
pub fn envelope(tool_name: &str, content: &str, nonce: &str, executed_at: &str) -> (r: String)
    ensures
        r@ == envelope_text(tool_name@, content@, nonce@, executed_at@),
{
    let q_content = crate::json::json_quote(content);
    let q_at = crate::json::json_quote(executed_at);
    let q_nonce = crate::json::json_quote(nonce);
    let q_tool = crate::json::json_quote(tool_name);
    let mut r = owned("{\"content\":");
    push_str(&mut r, q_content.as_str());
    push_str(&mut r, ",\"data_classification\":\"untrusted_external\",\"executed_at\":");
    push_str(&mut r, q_at.as_str());
    push_str(&mut r, ",\"server_nonce\":");
    push_str(&mut r, q_nonce.as_str());
    push_str(&mut r, ",\"server_version\":\"0.2.2\",\"source\":");
    push_str(&mut r, q_tool.as_str());
    push_str(&mut r, ",\"type\":\"tool_result\"}");
    r
}

/// Wraps tool output in the envelope: a fresh 16-hex-digit nonce (the low
/// 64 bits of a random UUID) and the current time prove that the reply was
/// produced by this server at this moment.
pub fn wrap_output_envelope(tool_name: &str, content: &str) -> (r: String)
    ensures
        exists|nonce: nat, at: Seq<char>|
            nonce < 0x1_0000_0000_0000_0000 && utc_rfc3339_shape(at) && r@ == envelope_text(
                tool_name@,
                content@,
                hex16(nonce),
                at,
            ),
{
    let bits = random_u128();
    let low: u64 = (bits % 0x1_0000_0000_0000_0000u128) as u64;
    let nonce = hex_digits_exec(low, 16);
    let at = now_rfc3339();
    let r = envelope(tool_name, content, nonce.as_str(), at.as_str());
    assert(nonce@ == hex16(low as nat));
    assert(r@ == envelope_text(tool_name@, content@, hex16(low as nat), at@));
    r
}

} // verus!
