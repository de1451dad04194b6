//! String helpers the rest of the library builds on: splitting on a
//! separator, joining with a separator, and single-character substitution,
//! each proved against a direct recursive specification.
use vstd::prelude::*;
use vstd::string::*;

verus! {

/// The pieces of `s` between occurrences of `sep`, in order. Splitting the
/// empty string yields one empty piece, so the result is never empty.
pub open spec fn split_on(s: Seq<char>, sep: char) -> Seq<Seq<char>>
    decreases s.len(),
{
    if s.len() == 0 {
        seq![Seq::<char>::empty()]
    } else if s[0] == sep {
        seq![Seq::<char>::empty()] + split_on(s.drop_first(), sep)
    } else {
        let rest = split_on(s.drop_first(), sep);
        seq![seq![s[0]] + rest[0]] + rest.drop_first()
    }
}

pub proof fn lemma_split_on_len(s: Seq<char>, sep: char)
    ensures
        split_on(s, sep).len() >= 1,
    decreases s.len(),
{
    if s.len() == 0 {
    } else {
        lemma_split_on_len(s.drop_first(), sep);
    }
}

/// No piece of a split contains the separator.
pub proof fn lemma_split_on_no_sep(s: Seq<char>, sep: char)
    ensures
        forall|i: int, j: int|
            0 <= i < split_on(s, sep).len() && 0 <= j < split_on(s, sep)[i].len()
                ==> split_on(s, sep)[i][j] != sep,
    decreases s.len(),
{
    if s.len() == 0 {
    } else {
        lemma_split_on_no_sep(s.drop_first(), sep);
        lemma_split_on_len(s.drop_first(), sep);
    }
}

/// Unfolds a split at the first separator: if `t` has no separator before
/// position `k`, and `k` is a separator position (or the end), the split is
/// the head piece followed by the split of the remainder.
proof fn lemma_split_head(t: Seq<char>, sep: char, k: int)
    requires
        0 <= k <= t.len(),
        forall|m: int| 0 <= m < k ==> t[m] != sep,
        k == t.len() || t[k] == sep,
    ensures
        k == t.len() ==> split_on(t, sep) == seq![t],
        k < t.len() ==> split_on(t, sep) == seq![t.take(k)] + split_on(t.skip(k + 1), sep),
    decreases k,
{
    if k == 0 {
        if t.len() == 0 {
            assert(t =~= Seq::<char>::empty());
            assert(split_on(t, sep) == seq![t]);
        } else {
            assert(t[0] == sep);
            assert(t.take(0) =~= Seq::<char>::empty());
            assert(t.skip(1) =~= t.drop_first());
            assert(split_on(t, sep) =~= seq![t.take(0)] + split_on(t.skip(1), sep));
        }
    } else {
        assert(t[0] != sep);
        let u = t.drop_first();
        lemma_split_head(u, sep, k - 1);
        let rest = split_on(u, sep);
        if k == t.len() {
            assert(rest == seq![u]);
            assert(seq![t[0]] + u =~= t);
            assert(rest.drop_first() =~= Seq::<Seq<char>>::empty());
            assert(split_on(t, sep) =~= seq![t]);
        } else {
            assert(rest == seq![u.take(k - 1)] + split_on(u.skip(k), sep));
            assert(u.skip(k) =~= t.skip(k + 1));
            assert(rest[0] == u.take(k - 1));
            assert(seq![t[0]] + u.take(k - 1) =~= t.take(k));
            assert(rest.drop_first() =~= split_on(t.skip(k + 1), sep));
            assert(split_on(t, sep) =~= seq![t.take(k)] + split_on(t.skip(k + 1), sep));
        }
    }
}

/// Splits `s` at every occurrence of `sep`.
pub fn split_str(s: &str, sep: char) -> (r: Vec<String>)
    ensures
        r.deep_view() == split_on(s@, sep),
        r.len() >= 1,
{
    let n = s.unicode_len();
    let mut r: Vec<String> = Vec::new();
    let mut start: usize = 0;
    let mut i: usize = 0;
    proof {
        assert(s@.skip(0) =~= s@);
    }
    while i < n
        invariant
            start <= i <= n,
            n == s@.len(),
            forall|m: int| start <= m < i ==> s@[m] != sep,
            split_on(s@, sep) == r.deep_view() + split_on(s@.skip(start as int), sep),
        decreases n - i,
    {
        if s.get_char(i) == sep {
            let piece = s.substring_char(start, i).to_owned();
            proof {
                lemma_split_head(s@.skip(start as int), sep, i - start);
                assert(s@.skip(start as int).take(i - start) =~= s@.subrange(
                    start as int,
                    i as int,
                ));
                assert(s@.skip(start as int).skip(i - start + 1) =~= s@.skip(i + 1));
                assert(split_on(s@.skip(start as int), sep) == seq![piece@] + split_on(
                    s@.skip(i + 1),
                    sep,
                ));
            }
            let ghost old_r = r.deep_view();
            r.push(piece);
            proof {
                assert(r.deep_view() =~= old_r.push(piece@));
                assert(old_r.push(piece@) =~= old_r + seq![piece@]);
                assert(r.deep_view() + split_on(s@.skip(i + 1), sep) =~= old_r + (seq![piece@]
                    + split_on(s@.skip(i + 1), sep)));
            }
            start = i + 1;
        }
        i = i + 1;
    }
    let piece = s.substring_char(start, n).to_owned();
    proof {
        lemma_split_head(s@.skip(start as int), sep, n - start);
        assert(s@.skip(start as int) =~= s@.subrange(start as int, n as int));
    }
    let ghost old_r = r.deep_view();
    r.push(piece);
    proof {
        assert(r.deep_view() =~= old_r.push(piece@));
        assert(old_r + seq![piece@] =~= old_r.push(piece@));
    }
    r
}

/// The pieces of `parts` concatenated with `sep` between neighbours.
pub open spec fn join_with(parts: Seq<Seq<char>>, sep: Seq<char>) -> Seq<char>
    decreases parts.len(),
{
    if parts.len() == 0 {
        Seq::<char>::empty()
    } else if parts.len() == 1 {
        parts[0]
    } else {
        join_with(parts.drop_last(), sep) + sep + parts.last()
    }
}

/// Joins `parts` with `sep` between neighbours.
pub fn join_strings(parts: &Vec<String>, sep: &str) -> (r: String)
    ensures
        r@ == join_with(parts.deep_view(), sep@),
{
    let mut r = String::new();
    let mut i: usize = 0;
    proof {
        assert(parts.deep_view().take(0) =~= Seq::<Seq<char>>::empty());
    }
    while i < parts.len()
        invariant
            i <= parts.len(),
            r@ == join_with(parts.deep_view().take(i as int), sep@),
        decreases parts.len() - i,
    {
        if i > 0 {
            r.append(sep);
        }
        r.append(parts[i].as_str());
        proof {
            let pv = parts.deep_view();
            assert(pv.take(i + 1).drop_last() =~= pv.take(i as int));
            assert(pv.take(i + 1).last() == pv[i as int]);
            if i == 0 {
                assert(join_with(pv.take(1), sep@) == pv[0]);
            }
        }
        i = i + 1;
    }
    proof {
        assert(parts.deep_view().take(parts.len() as int) =~= parts.deep_view());
    }
    r
}

/// `s` with every occurrence of the character `c` replaced by `with`.
pub open spec fn replace_char(s: Seq<char>, c: char, with: Seq<char>) -> Seq<char>
    decreases s.len(),
{
    if s.len() == 0 {
        Seq::<char>::empty()
    } else {
        (if s[0] == c {
            with
        } else {
            seq![s[0]]
        }) + replace_char(s.drop_first(), c, with)
    }
}

/// Replaces every occurrence of the character `c` in `s` by `with`.
pub fn replace_char_str(s: &str, c: char, with: &str) -> (r: String)
    ensures
        r@ == replace_char(s@, c, with@),
{
    let n = s.unicode_len();
    let mut r = String::new();
    let mut i: usize = 0;
    proof {
        assert(s@.skip(0) =~= s@);
    }
    while i < n
        invariant
            i <= n,
            n == s@.len(),
            replace_char(s@, c, with@) == r@ + replace_char(s@.skip(i as int), c, with@),
        decreases n - i,
    {
        let ghost old_r = r@;
        proof {
            assert(s@.skip(i as int)[0] == s@[i as int]);
            assert(s@.skip(i as int).drop_first() =~= s@.skip(i + 1));
        }
        if s.get_char(i) == c {
            r.append(with);
            proof {
                assert(old_r + (with@ + replace_char(s@.skip(i + 1), c, with@)) =~= (old_r
                    + with@) + replace_char(s@.skip(i + 1), c, with@));
            }
        } else {
            let piece = s.substring_char(i, i + 1);
            proof {
                assert(piece@ =~= seq![s@[i as int]]);
            }
            r.append(piece);
            proof {
                assert(old_r + (seq![s@[i as int]] + replace_char(s@.skip(i + 1), c, with@))
                    =~= (old_r + seq![s@[i as int]]) + replace_char(s@.skip(i + 1), c, with@));
            }
        }
        i = i + 1;
    }
    proof {
        assert(s@.skip(n as int) =~= Seq::<char>::empty());
        assert(r@ + Seq::<char>::empty() =~= r@);
    }
    r
}

/// String equality, exposed over the views.
pub fn str_eq(a: &str, b: &str) -> (r: bool)
    ensures
        r == (a@ == b@),
{
    let x = a.to_owned();
    let y = b.to_owned();
    x == y
}

} // verus!
