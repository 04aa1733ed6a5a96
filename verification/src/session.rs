//! The REST session: its random bearer token, the connection info handed
//! to the UI, and the `.env` lines that let command-line scripts find the
//! server.

use vstd::prelude::*;
use rand::Rng;
use crate::text::{join, lines_of, starts_with, strings_view};

verus! {

/// REST API connection info returned to the UI.
pub struct ApiInfo {
    pub base_url: String,
    pub token: String,
}

/// The lower-case hex digit of `d < 16`.
pub open spec fn hex_digit(d: u8) -> char {
    if d < 10 {
        ((d + 48) as u8) as char
    } else {
        ((d + 87) as u8) as char
    }
}

/// Whether `s` is the lower-case hex encoding of `bytes`: two digits per
/// byte, high half first.
pub open spec fn is_hex_of(s: Seq<char>, bytes: Seq<u8>) -> bool {
    &&& s.len() == 2 * bytes.len()
    &&& forall|i: int|
        0 <= i < bytes.len() ==> s[2 * i] == hex_digit(#[trigger] bytes[i] / 16) && s[2 * i + 1]
            == hex_digit(bytes[i] % 16)
}

/// 32 bytes from the thread's random generator
/// (`rand::thread_rng().gen()`); nothing is stated of them.
#[verifier::external_body]
fn random_bytes() -> (r: [u8; 32]) {
    rand::thread_rng().gen()
}

/// `hex::encode`: each byte as two lower-case hex digits, as the crate's
/// documentation states.
#[verifier::external_body]
fn hex_encode(bytes: &[u8; 32]) -> (r: String)
    ensures
        is_hex_of(r@, bytes@),
{
    hex::encode(bytes)
}

/// A random bearer token for the session: 32 random bytes in hex.
pub fn generate_auth_token() -> (r: String)
    ensures
        r@.len() == 64,
        exists|b: Seq<u8>| b.len() == 32 && #[trigger] is_hex_of(r@, b),
{
    let bytes = random_bytes();
    let token = hex_encode(&bytes);
    assert(is_hex_of(token@, bytes@));
    token
}

/// Whether a `.env` line holds REST API info.
pub open spec fn is_api_line(line: Seq<char>) -> bool {
    starts_with(line, "REST_API_URL="@) || starts_with(line, "REST_API_TOKEN="@)
}

/// The lines that are kept.
pub open spec fn kept_lines(ls: Seq<Seq<char>>) -> Seq<Seq<char>>
    decreases ls.len(),
{
    if ls.len() == 0 {
        Seq::empty()
    } else {
        let rest = kept_lines(ls.drop_last());
        if is_api_line(ls.last()) {
            rest
        } else {
            rest.push(ls.last())
        }
    }
}

/// The `.env` content with the REST API info replaced: the other lines
/// joined by newlines (ending with one when not empty), then a comment and
/// the `REST_API_URL` and `REST_API_TOKEN` lines.
pub open spec fn env_with_api_info(existing: Seq<char>, base_url: Seq<char>, token: Seq<char>) -> Seq<
    char,
> {
    let kept = join(kept_lines(lines_of(existing)), "\n"@);
    let head = if kept.len() > 0 && kept.last() != '\n' {
        kept.push('\n')
    } else {
        kept
    };
    head + "\n# REST API Info (auto-generated on app start)\n"@ + "REST_API_URL="@ + base_url + "\n"@
        + "REST_API_TOKEN="@ + token + "\n"@
}

/// The new `.env` content for the REST API info.
pub fn env_file_content(existing: &str, info: &ApiInfo) -> (r: String)
    ensures
        r@ == env_with_api_info(existing@, info.base_url@, info.token@),
{
    let text = crate::text::chars_of(existing);
    let lines = crate::text::split_lines(&text);
    let url_p = crate::text::chars_of("REST_API_URL=");
    let tok_p = crate::text::chars_of("REST_API_TOKEN=");
    let mut kept: Vec<String> = Vec::new();
    let mut i: usize = 0;
    while i < lines.len()
        invariant
            i <= lines@.len(),
            crate::text::char_vecs_view(lines@) == lines_of(existing@),
            url_p@ == "REST_API_URL="@,
            tok_p@ == "REST_API_TOKEN="@,
            strings_view(kept@) == kept_lines(crate::text::char_vecs_view(lines@).take(i as int)),
        decreases lines@.len() - i,
    {
        let ghost ls = crate::text::char_vecs_view(lines@);
        proof {
            assert(ls.take(i + 1).drop_last() =~= ls.take(i as int));
            assert(ls.take(i + 1).last() == lines@[i as int]@);
        }
        let drop = crate::text::has_prefix(&lines[i], &url_p) || crate::text::has_prefix(
            &lines[i],
            &tok_p,
        );
        if !drop {
            let ghost before = kept@;
            kept.push(crate::text::string_from_chars(&lines[i]));
            assert(strings_view(kept@) =~= strings_view(before).push(lines@[i as int]@));
        }
        i = i + 1;
    }
    proof {
        let ls = crate::text::char_vecs_view(lines@);
        assert(ls.take(i as int) =~= ls);
    }
    let mut content = crate::text::join_strings(&kept, "\n");
    let cc = crate::text::chars_of(content.as_str());
    if cc.len() > 0 && cc[cc.len() - 1] != '\n' {
        let mut v = cc;
        v.push('\n');
        content = crate::text::string_from_chars(&v);
    }
    content.concat("\n# REST API Info (auto-generated on app start)\n").concat("REST_API_URL=").concat(
        info.base_url.as_str(),
    ).concat("\n").concat("REST_API_TOKEN=").concat(info.token.as_str()).concat("\n")
}

/// The Gemini API key of the environment, or the placeholder that marks it
/// as not configured.
pub fn gemini_key_or_placeholder(env_value: Option<String>) -> (r: String)
    ensures
        r@ == (match env_value {
            Some(k) => k@,
            None => "YOUR_GEMINI_API_KEY_HERE"@,
        }),
{
    match env_value {
        Some(k) => k,
        None => String::from_str("YOUR_GEMINI_API_KEY_HERE"),
    }
}

} // verus!
