//! Side-channel message formatting: a bracketed tag followed by the
//! word-wrapped body, and the welcome message with its username
//! placeholder substituted.
use vstd::prelude::*;
use vstd::string::*;

use crate::strutil::{join_with, join_strings, replace_char, replace_char_str};

verus! {

/// The column width bodies are wrapped at.
pub const WRAP_WIDTH: usize = 40;

/// What `textwrap::wrap` yields for a text at a width: a pure function of
/// the two arguments.
pub uninterp spec fn wrapped(s: Seq<char>, width: int) -> Seq<Seq<char>>;

/// Relies on textwrap::wrap with a plain width: deterministic line filling,
/// a function of the text and the width alone.
#[verifier::external_body]
fn wrap_text(s: &str, width: usize) -> (r: Vec<String>)
    ensures
        r.deep_view() == wrapped(s@, width as int),
{
    textwrap::wrap(s, width).into_iter().map(|line| line.into_owned()).collect()
}

/// The tag of the server's own informational and error messages.
pub fn server_tag() -> (r: &'static str)
    ensures
        r@ == "EEJIT"@,
{
    "EEJIT"
}

/// The tag of a notice supplied by a repository's own configuration.
pub fn repo_note_tag() -> (r: &'static str)
    ensures
        r@ == "REPO NOTE"@,
{
    "REPO NOTE"
}

/// One side-channel message: the tag in brackets, a space, the body
/// wrapped at the fixed width with its lines joined by newlines, and a
/// trailing newline.
pub fn side_message(tag: &str, message: &str) -> (r: String)
    ensures
        r@ == seq!['['] + tag@ + seq![']', ' '] + join_with(
            wrapped(message@, WRAP_WIDTH as int),
            seq!['\n'],
        ) + seq!['\n'],
{
    let lines = wrap_text(message, WRAP_WIDTH);
    let nl = "\n";
    proof {
        reveal_strlit("\n");
        assert(nl@ =~= seq!['\n']);
    }
    let body = join_strings(&lines, nl);
    let mut r = String::from_str("[");
    r.append(tag);
    r.append("] ");
    r.append(body.as_str());
    r.append(nl);
    proof {
        reveal_strlit("[");
        reveal_strlit("] ");
        assert(r@ =~= seq!['['] + tag@ + seq![']', ' '] + body@ + seq!['\n']);
    }
    r
}

/// The welcome message as sent: every placeholder character replaced by
/// the resolved username.
pub fn welcome_text(message: &str, username: &str) -> (r: String)
    ensures
        r@ == replace_char(message@, '%', username@),
{
    replace_char_str(message, '%', username)
}

} // verus!
