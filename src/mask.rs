//! How secrets and exported values are rendered as text.

use vstd::prelude::*;

verus! {

/// Number of leading token characters that may be shown.
pub const VISIBLE_CHARS: usize = 8;

/// The suffix that stands for the hidden rest of a token.
pub open spec fn mask_suffix() -> Seq<char> {
    seq!['*', '*', '*', '*']
}

/// The leading characters of a token that a listing shows: at most eight.
pub open spec fn visible_prefix(token: Seq<char>) -> Seq<char> {
    if token.len() <= VISIBLE_CHARS {
        token
    } else {
        token.take(VISIBLE_CHARS as int)
    }
}

/// A token as a listing shows it: its visible prefix, then the mask.
pub open spec fn masked(token: Seq<char>) -> Seq<char> {
    visible_prefix(token) + mask_suffix()
}

fn mask_string() -> (r: String)
    ensures
        r@ == mask_suffix(),
{
    let s = String::from_str("****");
    proof {
        reveal_strlit("****");
    }
    assert(s@ =~= mask_suffix());
    s
}

/// Renders a token for a listing: the first `min(8, len)` characters, then `****`.
pub fn mask_token(token: &str) -> (r: String)
    ensures
        r@ == masked(token@),
{
    let n = token.unicode_len();
    let shown = if n <= VISIBLE_CHARS { n } else { VISIBLE_CHARS };
    let head = token.substring_char(0, shown);
    let mut r = String::from_str(head);
    let m = mask_string();
    r.append(m.as_str());
    assert(head@ =~= visible_prefix(token@));
    r
}

/// A token as the environment check shows it: the first eight characters
/// and the mask when it is longer than eight, the mask alone otherwise.
pub open spec fn env_masked(token: Seq<char>) -> Seq<char> {
    if token.len() > VISIBLE_CHARS {
        token.take(VISIBLE_CHARS as int) + mask_suffix()
    } else {
        mask_suffix()
    }
}

/// Renders a token read from the environment for display.
pub fn mask_env_token(token: &str) -> (r: String)
    ensures
        r@ == env_masked(token@),
{
    let n = token.unicode_len();
    if n > VISIBLE_CHARS {
        let head = token.substring_char(0, VISIBLE_CHARS);
        let mut r = String::from_str(head);
        let m = mask_string();
        r.append(m.as_str());
        r
    } else {
        mask_string()
    }
}

/// The variable that carries the auth token.
pub const TOKEN_VAR: &'static str = "ANTHROPIC_AUTH_TOKEN";

/// The variable that carries the API base URL.
pub const URL_VAR: &'static str = "ANTHROPIC_BASE_URL";

/// The shell statement `export KEY="value"`.
pub open spec fn export_line(key: Seq<char>, value: Seq<char>) -> Seq<char> {
    "export "@ + key + "=\""@ + value + "\""@
}

/// Builds the shell statement that sets `key` to `value`.
pub fn export_statement(key: &str, value: &str) -> (r: String)
    ensures
        r@ == export_line(key@, value@),
{
    let mut r = String::from_str("export ");
    r.append(key);
    r.append("=\"");
    r.append(value);
    r.append("\"");
    r
}

/// The two statements that export a token and a base URL, token first.
pub open spec fn export_pair(token: Seq<char>, api_url: Seq<char>) -> Seq<Seq<char>> {
    seq![export_line(TOKEN_VAR@, token), export_line(URL_VAR@, api_url)]
}

/// Builds the two export statements for a token and a base URL.
pub fn export_lines(token: &str, api_url: &str) -> (r: Vec<String>)
    ensures
        r@.map_values(|l: String| l@) == export_pair(token@, api_url@),
{
    let mut r: Vec<String> = Vec::new();
    r.push(export_statement(TOKEN_VAR, token));
    r.push(export_statement(URL_VAR, api_url));
    assert(r@.map_values(|l: String| l@) =~= export_pair(token@, api_url@));
    r
}

} // verus!
