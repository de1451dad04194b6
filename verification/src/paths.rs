//! Repository path canonicalization. An incoming repository argument is
//! accepted only with a leading slash; the remainder is split into
//! components, lexically cleaned (`.` and empty components dropped, `..`
//! resolved, escapes past the root rejected), and the final component is
//! normalized to carry the `.git` suffix. A `RepoPath` witnesses that this
//! validation has happened.
use vstd::prelude::*;
use vstd::string::*;

use crate::strutil::{lemma_split_on_len, lemma_split_on_no_sep, split_on, split_str, join_with,
    join_strings};

verus! {

pub open spec fn dot() -> Seq<char> {
    seq!['.']
}

pub open spec fn dotdot() -> Seq<char> {
    seq!['.', '.']
}

pub open spec fn git_ext() -> Seq<char> {
    seq!['.', 'g', 'i', 't']
}

/// A component a cleaned path may contain: non-empty, not a current- or
/// parent-directory marker, and free of separators.
pub open spec fn good_component(c: Seq<char>) -> bool {
    &&& c.len() > 0
    &&& c != dot()
    &&& c != dotdot()
    &&& forall|j: int| 0 <= j < c.len() ==> c[j] != '/'
}

/// Lexical cleaning, left to right over the remaining components `cs` with
/// the already-kept components `acc`: empty and `.` components are dropped,
/// `..` removes the last kept component, and `..` with nothing kept is an
/// escape past the root, which is refused.
pub open spec fn clean_from(acc: Seq<Seq<char>>, cs: Seq<Seq<char>>) -> Option<Seq<Seq<char>>>
    decreases cs.len(),
{
    if cs.len() == 0 {
        Some(acc)
    } else {
        let c = cs[0];
        if c.len() == 0 || c == dot() {
            clean_from(acc, cs.drop_first())
        } else if c == dotdot() {
            if acc.len() == 0 {
                None
            } else {
                clean_from(acc.drop_last(), cs.drop_first())
            }
        } else {
            clean_from(acc.push(c), cs.drop_first())
        }
    }
}

/// Every component a successful cleaning keeps is a good component, provided
/// the input components were at worst separators-free.
pub proof fn lemma_clean_good(acc: Seq<Seq<char>>, cs: Seq<Seq<char>>)
    requires
        forall|i: int| 0 <= i < acc.len() ==> good_component(#[trigger] acc[i]),
        forall|i: int, j: int|
            0 <= i < cs.len() && 0 <= j < cs[i].len() ==> cs[i][j] != '/',
    ensures
        clean_from(acc, cs) matches Some(v) ==> forall|i: int|
            0 <= i < v.len() ==> good_component(#[trigger] v[i]),
    decreases cs.len(),
{
    if cs.len() == 0 {
    } else {
        let c = cs[0];
        assert(forall|i: int, j: int|
            0 <= i < cs.drop_first().len() && 0 <= j < cs.drop_first()[i].len()
                ==> cs.drop_first()[i][j] != '/');
        if c.len() == 0 || c == dot() {
            lemma_clean_good(acc, cs.drop_first());
        } else if c == dotdot() {
            if acc.len() > 0 {
                lemma_clean_good(acc.drop_last(), cs.drop_first());
            }
        } else {
            assert(forall|j: int| 0 <= j < c.len() ==> c[j] != '/');
            assert(good_component(c));
            lemma_clean_good(acc.push(c), cs.drop_first());
        }
    }
}

/// Whether a file-name component already carries the `.git` suffix as an
/// extension: it ends in `.git` and has a non-empty stem before it.
pub open spec fn has_git_ext(c: Seq<char>) -> bool {
    c.len() >= 5 && c.subrange(c.len() - 4, c.len() as int) == git_ext()
}

/// Suffix normalization of a cleaned component list: the last component is
/// given the `.git` suffix if it does not already carry it.
pub open spec fn spec_ensure_git_suffix(cs: Seq<Seq<char>>) -> Seq<Seq<char>>
    recommends
        cs.len() > 0,
{
    let last = cs.last();
    if has_git_ext(last) {
        cs
    } else {
        cs.update(cs.len() - 1, last + git_ext())
    }
}

/// Suffix normalization never needs to be applied twice: a second
/// application changes nothing.
pub proof fn lemma_git_suffix_idempotent(cs: Seq<Seq<char>>)
    requires
        cs.len() > 0,
        cs.last().len() > 0,
    ensures
        spec_ensure_git_suffix(spec_ensure_git_suffix(cs)) == spec_ensure_git_suffix(cs),
{
    let last = cs.last();
    if has_git_ext(last) {
    } else {
        let l2 = last + git_ext();
        assert(l2.subrange(l2.len() - 4, l2.len() as int) =~= git_ext());
        assert(has_git_ext(l2));
        let cs2 = cs.update(cs.len() - 1, l2);
        assert(cs2.last() == l2);
    }
}

fn component_has_git_ext(c: &str) -> (r: bool)
    ensures
        r == has_git_ext(c@),
{
    let n = c.unicode_len();
    if n < 5 {
        return false;
    }
    let r = c.get_char(n - 4) == '.' && c.get_char(n - 3) == 'g' && c.get_char(n - 2) == 'i'
        && c.get_char(n - 1) == 't';
    proof {
        let sub = c@.subrange(c@.len() - 4, c@.len() as int);
        if r {
            assert(sub =~= git_ext());
        } else {
            assert(sub[0] == c@[c@.len() - 4] && sub[1] == c@[c@.len() - 3] && sub[2] == c@[
                c@.len() - 2] && sub[3] == c@[c@.len() - 1]);
        }
    }
    r
}

/// A validated, root-relative repository path: the components are lexically
/// clean, escape-free, and the last one carries the `.git` suffix.
pub struct RepoPath {
    pub components: Vec<String>,
}

impl View for RepoPath {
    type V = Seq<Seq<char>>;

    open spec fn view(&self) -> Seq<Seq<char>> {
        self.components.deep_view()
    }
}

impl RepoPath {
    /// The invariant canonicalization establishes.
    pub open spec fn wf(&self) -> bool {
        &&& self@.len() > 0
        &&& forall|i: int| 0 <= i < self@.len() ==> good_component(#[trigger] self@[i])
        &&& has_git_ext(self@.last())
    }

    /// The slash-joined textual form, handed to the subprocess and the
    /// filesystem layer.
    pub fn render(&self) -> (r: String)
        ensures
            r@ == join_with(self@, seq!['/']),
    {
        let sep = "/";
        proof {
            reveal_strlit("/");
            assert(sep@ =~= seq!['/']);
        }
        join_strings(&self.components, sep)
    }

    /// The first path component, which decides whose personal directory a
    /// new repository would live in.
    pub fn first_component(&self) -> (r: &String)
        requires
            self.wf(),
        ensures
            r@ == self@[0],
    {
        &self.components[0]
    }
}

/// The full canonicalization of a raw repository argument, at the
/// specification level.
pub open spec fn spec_canonicalize(s: Seq<char>) -> Option<Seq<Seq<char>>> {
    if s.len() == 0 || s[0] != '/' {
        None
    } else {
        match clean_from(Seq::<Seq<char>>::empty(), split_on(s.skip(1), '/')) {
            Option::None => None,
            Option::Some(v) => if v.len() == 0 {
                None
            } else {
                Some(spec_ensure_git_suffix(v))
            },
        }
    }
}

/// Canonicalizes the repository argument of an incoming command: requires a
/// leading slash, cleans the remainder lexically, refuses anything that
/// escapes past the root or cleans away entirely, and enforces the `.git`
/// suffix on the final component. The result never contains a
/// parent-directory component.
pub fn canonicalize_repo_arg(arg: &str) -> (r: Option<RepoPath>)
    ensures
        r matches Some(p) ==> p.wf() && spec_canonicalize(arg@) == Some(p@),
        r matches Some(p) ==> forall|i: int|
            0 <= i < p@.len() ==> p@[i] != dotdot() && p@[i] != dot() && p@[i].len() > 0,
        r is None ==> spec_canonicalize(arg@) is None,
{
    let n = arg.unicode_len();
    if n == 0 || arg.get_char(0) != '/' {
        return None;
    }
    let rest = arg.substring_char(1, n);
    proof {
        assert(rest@ =~= arg@.skip(1));
    }
    let parts = split_str(rest, '/');
    proof {
        lemma_split_on_no_sep(rest@, '/');
    }
    // Lexical cleaning with an explicit stack of kept components.
    let mut kept: Vec<String> = Vec::new();
    let mut i: usize = 0;
    let ghost cs = parts.deep_view();
    proof {
        assert(kept.deep_view() =~= Seq::<Seq<char>>::empty());
        assert(cs.skip(0) =~= cs);
    }
    while i < parts.len()
        invariant
            i <= parts.len(),
            cs == parts.deep_view(),
            arg@.len() > 0 && arg@[0] == '/',
            split_on(arg@.skip(1), '/') == cs,
            clean_from(Seq::<Seq<char>>::empty(), cs) == clean_from(
                kept.deep_view(),
                cs.skip(i as int),
            ),
            forall|a: int, b: int|
                0 <= a < cs.len() && 0 <= b < cs[a].len() ==> cs[a][b] != '/',
            forall|a: int, b: int|
                0 <= a < kept.deep_view().len() && 0 <= b < kept.deep_view()[a].len()
                    ==> kept.deep_view()[a][b] != '/',
        decreases parts.len() - i,
    {
        let c = &parts[i];
        let len = c.unicode_len();
        proof {
            assert(cs.skip(i as int)[0] == cs[i as int]);
            assert(cs.skip(i as int).drop_first() =~= cs.skip(i + 1));
            assert(c@ == cs[i as int]);
        }
        if len == 0 || (len == 1 && c.get_char(0) == '.') {
            proof {
                if len == 1 {
                    assert(c@ =~= dot());
                }
            }
        } else if len == 2 && c.get_char(0) == '.' && c.get_char(1) == '.' {
            proof {
                assert(c@ =~= dotdot());
            }
            if kept.len() == 0 {
                proof {
                    assert(kept.deep_view().len() == 0);
                    assert(cs.skip(i as int)[0] == dotdot());
                    assert(dotdot().len() == 2);
                    assert(clean_from(kept.deep_view(), cs.skip(i as int)) is None);
                    assert(clean_from(Seq::<Seq<char>>::empty(), cs) is None);
                    assert(split_on(arg@.skip(1), '/') == cs);
                    assert(clean_from(Seq::<Seq<char>>::empty(), split_on(arg@.skip(1), '/'))
                        is None);
                    assert(spec_canonicalize(arg@) is None);
                }
                return None;
            }
            let ghost old_kept = kept.deep_view();
            kept.pop();
            proof {
                assert(kept.deep_view() =~= old_kept.drop_last());
            }
        } else {
            proof {
                assert(c@.len() > 0);
                if c@.len() == 1 {
                    assert(c@ != dot());
                }
                if c@.len() == 2 {
                    assert(c@ != dotdot());
                }
            }
            let ghost old_kept = kept.deep_view();
            kept.push(c.clone());
            proof {
                assert(kept.deep_view() =~= old_kept.push(c@));
            }
        }
        i = i + 1;
    }
    proof {
        assert(cs.skip(parts.len() as int) =~= Seq::<Seq<char>>::empty());
    }
    if kept.len() == 0 {
        proof {
            assert(kept.deep_view().len() == 0);
        }
        return None;
    }
    // Enforce the repository suffix on the final component.
    proof {
        lemma_clean_good(Seq::<Seq<char>>::empty(), cs);
    }
    let lastidx = kept.len() - 1;
    let ghost cleaned = kept.deep_view();
    if !component_has_git_ext(kept[lastidx].as_str()) {
        let suffixed = kept[lastidx].clone().concat(".git");
        proof {
            reveal_strlit(".git");
            assert(".git"@ =~= git_ext());
        }
        kept.set(lastidx, suffixed);
        proof {
            assert(kept.deep_view() =~= cleaned.update(
                cleaned.len() - 1,
                cleaned.last() + git_ext(),
            ));
        }
    } else {
        proof {
            assert(kept.deep_view() =~= cleaned);
        }
    }
    let p = RepoPath { components: kept };
    proof {
        assert(p@ == spec_ensure_git_suffix(cleaned));
        let last = cleaned.last();
        if !has_git_ext(last) {
            let l2 = last + git_ext();
            assert(l2.subrange(l2.len() - 4, l2.len() as int) =~= git_ext());
            assert(has_git_ext(l2));
            assert(good_component(last));
            assert(forall|j: int| 0 <= j < l2.len() ==> l2[j] != '/') by {
                assert(forall|j: int| 0 <= j < last.len() ==> last[j] != '/');
                assert(forall|j: int|
                    last.len() <= j < l2.len() ==> l2[j] == git_ext()[j - last.len()]);
            }
            assert(l2 != dot() && l2 != dotdot());
            assert(good_component(l2));
        }
        assert(p.wf());
    }
    Some(p)
}

} // verus!
