//! Parsing of an incoming exec request: the raw command line is split into
//! shell words; the first word must be one of the three git service verbs
//! and the second names the repository, which is canonicalized. Anything
//! else is refused with a silent close.
use vstd::prelude::*;
use vstd::string::*;

use crate::authorize::{Verb, parse_verb, spec_parse_verb};
use crate::paths::{RepoPath, canonicalize_repo_arg, spec_canonicalize};

verus! {

/// What `shellwords::split` yields: the command line's words, or nothing
/// when its quoting is mismatched — a pure function of the input.
pub uninterp spec fn shell_split_of(s: Seq<char>) -> Option<Seq<Seq<char>>>;

/// Relies on shellwords::split: Bourne-shell word splitting, deterministic
/// in its input; mismatched quotes are its only failure.
#[verifier::external_body]
fn shell_split(s: &str) -> (r: Option<Vec<String>>)
    ensures
        r matches Some(v) ==> shell_split_of(s@) == Some(v.deep_view()),
        r is None ==> shell_split_of(s@) is None,
{
    match shellwords::split(s) {
        Ok(words) => Some(words),
        Err(_) => None,
    }
}

/// The parse of a raw exec request: its verb and the canonical repository
/// path, or nothing when any step refuses.
pub open spec fn spec_parse_request(s: Seq<char>) -> Option<(Verb, Seq<Seq<char>>)> {
    match shell_split_of(s) {
        Option::None => None,
        Option::Some(ws) => if ws.len() < 2 {
            None
        } else {
            match spec_parse_verb(ws[0]) {
                Option::None => None,
                Option::Some(v) => match spec_canonicalize(ws[1]) {
                    Option::None => None,
                    Option::Some(p) => Some((v, p)),
                },
            }
        },
    }
}

/// Parses a raw exec request. A request that is not a recognized verb with
/// a canonicalizable repository argument yields nothing, and the caller
/// closes the channel without a message.
pub fn parse_request(raw: &str) -> (r: Option<(Verb, RepoPath)>)
    ensures
        r matches Some(vp) ==> vp.1.wf() && spec_parse_request(raw@) == Some((vp.0, vp.1@)),
        r is None ==> spec_parse_request(raw@) is None,
{
    let words = match shell_split(raw) {
        Some(w) => w,
        None => {
            return None;
        },
    };
    if words.len() < 2 {
        return None;
    }
    proof {
        assert(words.deep_view()[0] == words@[0]@);
        assert(words.deep_view()[1] == words@[1]@);
    }
    let verb = match parse_verb(words[0].as_str()) {
        Some(v) => v,
        None => {
            return None;
        },
    };
    let path = match canonicalize_repo_arg(words[1].as_str()) {
        Some(p) => p,
        None => {
            return None;
        },
    };
    Some((verb, path))
}

} // verus!
