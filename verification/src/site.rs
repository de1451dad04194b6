//! The decisions behind the static-site collaborator: whether a push
//! should trigger a page build for a repository, the clone URL shown on
//! the page, and where the published output lives. The rendering itself
//! (markdown and templates) is an external collaborator; these are the
//! rules it is driven by.
use vstd::prelude::*;
use vstd::string::*;

use crate::config::RepoConfig;
use crate::paths::{RepoPath, has_git_ext};
use crate::strutil::{join_with, join_strings};

verus! {

/// What a qualifying push means for the site: nothing, or a build through
/// the repository's own template when it names one.
pub enum SitePlan {
    /// The repository is private or has no README: no page.
    Skip,
    /// Render the README through the named template, or the default one.
    Build { template: Option<String> },
}

/// Whether and how to build a repository's page: only public repositories
/// with a README are published.
pub fn site_plan(cfg: &RepoConfig, readme_exists: bool) -> (r: SitePlan)
    ensures
        !cfg.public ==> r is Skip,
        cfg.public && !readme_exists ==> r is Skip,
        cfg.public && readme_exists ==> (r matches SitePlan::Build { template } && template
            == cfg.web_template),
{
    if !cfg.public {
        return SitePlan::Skip;
    }
    if !readme_exists {
        return SitePlan::Skip;
    }
    let template = match &cfg.web_template {
        Some(t) => Some(t.clone()),
        None => None,
    };
    SitePlan::Build { template }
}

/// The decimal digits of a non-negative number, most significant first.
pub open spec fn dec_digits(n: int) -> Seq<char>
    decreases n,
{
    if n < 10 {
        seq![digit_char(n)]
    } else {
        dec_digits(n / 10) + seq![digit_char(n % 10)]
    }
}

pub open spec fn digit_char(d: int) -> char {
    if d == 0 {
        '0'
    } else if d == 1 {
        '1'
    } else if d == 2 {
        '2'
    } else if d == 3 {
        '3'
    } else if d == 4 {
        '4'
    } else if d == 5 {
        '5'
    } else if d == 6 {
        '6'
    } else if d == 7 {
        '7'
    } else if d == 8 {
        '8'
    } else {
        '9'
    }
}

fn digit_str(d: u16) -> (r: &'static str)
    requires
        d < 10,
    ensures
        r@ == seq![digit_char(d as int)],
{
    let r: &'static str = match d {
        0 => "0",
        1 => "1",
        2 => "2",
        3 => "3",
        4 => "4",
        5 => "5",
        6 => "6",
        7 => "7",
        8 => "8",
        _ => "9",
    };
    proof {
        reveal_strlit("0");
        reveal_strlit("1");
        reveal_strlit("2");
        reveal_strlit("3");
        reveal_strlit("4");
        reveal_strlit("5");
        reveal_strlit("6");
        reveal_strlit("7");
        reveal_strlit("8");
        reveal_strlit("9");
        assert(r@ =~= seq![digit_char(d as int)]);
    }
    r
}

/// Renders a port number in decimal.
pub fn u16_to_string(n: u16) -> (r: String)
    ensures
        r@ == dec_digits(n as int),
    decreases n,
{
    if n < 10 {
        digit_str(n).to_owned()
    } else {
        let mut s = u16_to_string(n / 10);
        s.append(digit_str(n % 10));
        s
    }
}

/// The clone URL a repository's page advertises.
pub fn clone_url(hostname: &str, port: u16, repo_path: &RepoPath) -> (r: String)
    ensures
        r@ == "ssh://"@ + hostname@ + seq![':'] + dec_digits(port as int) + seq!['/'] + join_with(
            repo_path@,
            seq!['/'],
        ),
{
    let mut r = String::from_str("ssh://");
    r.append(hostname);
    r.append(":");
    let p = u16_to_string(port);
    r.append(p.as_str());
    r.append("/");
    let rendered = repo_path.render();
    r.append(rendered.as_str());
    proof {
        reveal_strlit(":");
        reveal_strlit("/");
        assert(r@ =~= "ssh://"@ + hostname@ + seq![':'] + dec_digits(port as int) + seq!['/']
            + join_with(repo_path@, seq!['/']));
    }
    r
}

/// The canonical path's components with the repository suffix stripped
/// from the final one, as the published directory is named.
pub open spec fn spec_strip_site_suffix(cs: Seq<Seq<char>>) -> Seq<Seq<char>>
    recommends
        cs.len() > 0,
{
    let last = cs.last();
    if has_git_ext(last) {
        cs.update(cs.len() - 1, last.take(last.len() - 4))
    } else {
        cs
    }
}

/// Where a repository's page is published: under the static root, at the
/// repository's path with the suffix stripped from its final component.
pub fn site_output_dir(repo_path: &RepoPath) -> (r: String)
    requires
        repo_path.wf(),
    ensures
        r@ == join_with(seq!["static"@] + spec_strip_site_suffix(repo_path@), seq!['/']),
{
    let mut parts: Vec<String> = Vec::new();
    parts.push(String::from_str("static"));
    let n = repo_path.components.len();
    let mut i: usize = 0;
    while i < n
        invariant
            n == repo_path.components.len(),
            i <= n,
            parts.len() == i + 1,
            parts.deep_view()[0] == "static"@,
            forall|j: int| 0 <= j < i ==> parts.deep_view()[j + 1] == repo_path@[j],
        decreases n - i,
    {
        parts.push(repo_path.components[i].clone());
        i = i + 1;
    }
    // Strip the suffix from the final component; canonicalization
    // guarantees it is there.
    let lastidx = parts.len() - 1;
    let last = &parts[lastidx];
    let len = last.unicode_len();
    proof {
        assert(parts.deep_view()[lastidx as int] == repo_path@[n - 1]);
        assert(has_git_ext(repo_path@.last()));
    }
    let stripped = last.substring_char(0, len - 4).to_owned();
    let ghost before = parts.deep_view();
    parts.set(lastidx, stripped);
    proof {
        let full = seq!["static"@] + spec_strip_site_suffix(repo_path@);
        assert(repo_path@.last().take(repo_path@.last().len() - 4) =~= repo_path@.last().subrange(
            0,
            repo_path@.last().len() - 4,
        ));
        assert(parts.deep_view() =~= full);
    }
    let sep = "/";
    proof {
        reveal_strlit("/");
        assert(sep@ =~= seq!['/']);
    }
    join_strings(&parts, sep)
}

} // verus!
