//! Path normalization and the staging-directory exemption.
//!
//! Relative paths from the manifest and from local directory walks are
//! compared after normalization: backslashes become slashes, leading `./`
//! and `/` are stripped, and ASCII letters are lower-cased.  A path whose
//! components include the staging directory (named `lancamentos`, compared
//! after case and accent folding) is exempt from manifest-driven cleanup.

use vstd::prelude::*;

use crate::chars::{launch_fold, lower, spec_launch_fold, spec_lower};
use crate::text::{chars_eq, chars_of, string_of};

verus! {

/// A path-component separator.
pub open spec fn spec_is_sep(c: char) -> bool {
    c == '/' || c == '\\'
}

pub fn is_sep(c: char) -> (r: bool)
    ensures
        r == spec_is_sep(c),
{
    c == '/' || c == '\\'
}

/// Backslashes replaced by forward slashes.
pub open spec fn spec_slashes(s: Seq<char>) -> Seq<char> {
    s.map_values(|c: char| if c == '\\' { '/' } else { c })
}

/// Leading `/` and `./` prefixes removed, in any interleaving, until
/// neither remains.
pub open spec fn spec_strip_leading(s: Seq<char>) -> Seq<char>
    decreases s.len(),
{
    if s.len() >= 2 && s[0] == '.' && s[1] == '/' {
        spec_strip_leading(s.skip(2))
    } else if s.len() >= 1 && s[0] == '/' {
        spec_strip_leading(s.skip(1))
    } else {
        s
    }
}

/// The normalized form of a manifest-relative path: separators unified,
/// every leading `./` and `/` stripped, ASCII letters lower-cased.
pub open spec fn spec_normalize_rel_path(s: Seq<char>) -> Seq<char> {
    spec_strip_leading(spec_slashes(s)).map_values(|c: char| spec_lower(c))
}

/// Normalizes a manifest-relative path so that equal files compare equal
/// whatever platform wrote them: `\` becomes `/`, every leading `./` and
/// `/` goes, and ASCII letters are lower-cased.
pub fn normalize_rel_path(path: &str) -> (r: String)
    ensures
        r@ == spec_normalize_rel_path(path@),
{
    let v = chars_of(path);
    let n = v.len();
    let mut w: Vec<char> = Vec::new();
    for i in 0..n
        invariant
            n == v@.len(),
            w@ == spec_slashes(v@.subrange(0, i as int)),
    {
        let c = v[i];
        w.push(if c == '\\' { '/' } else { c });
        assert(w@ =~= spec_slashes(v@.subrange(0, i + 1 as int)));
    }
    assert(v@.subrange(0, n as int) =~= v@);

    let m = w.len();
    let mut start: usize = 0;
    assert(w@.skip(0) =~= w@);
    while (m - start >= 2 && w[start] == '.' && w[start + 1] == '/') || (start < m && w[start]
        == '/')
        invariant
            m == w@.len(),
            start <= m,
            spec_strip_leading(w@) == spec_strip_leading(w@.skip(start as int)),
        decreases m - start,
    {
        assert(w@.skip(start as int)[0] == w@[start as int]);
        if m - start >= 2 && w[start] == '.' && w[start + 1] == '/' {
            assert(w@.skip(start as int)[1] == w@[start as int + 1]);
            assert(w@.skip(start as int).skip(2) =~= w@.skip(start as int + 2));
            start = start + 2;
        } else {
            assert(w@.skip(start as int).skip(1) =~= w@.skip(start as int + 1));
            start = start + 1;
        }
    }
    assert(spec_strip_leading(w@.skip(start as int)) == w@.skip(start as int)) by {
        if start < m {
            assert(w@.skip(start as int)[0] == w@[start as int]);
            if start + 1 < m {
                assert(w@.skip(start as int)[1] == w@[start as int + 1]);
            }
        }
    }

    let ghost stripped = w@.skip(start as int);
    let mut out: Vec<char> = Vec::new();
    let mut i: usize = start;
    while i < m
        invariant
            m == w@.len(),
            start <= i <= m,
            stripped == w@.skip(start as int),
            out@ == stripped.subrange(0, i - start).map_values(|c: char| spec_lower(c)),
        decreases m - i,
    {
        assert(stripped[i - start] == w@[i as int]);
        out.push(lower(w[i]));
        assert(out@ =~= stripped.subrange(0, i + 1 - start).map_values(|c: char| spec_lower(c)));
        i = i + 1;
    }
    assert(stripped.subrange(0, m - start) =~= stripped);
    string_of(&out)
}

proof fn lemma_strip_leading_fixpoint(s: Seq<char>)
    ensures
        !(spec_strip_leading(s).len() >= 2 && spec_strip_leading(s)[0] == '.'
            && spec_strip_leading(s)[1] == '/'),
        !(spec_strip_leading(s).len() >= 1 && spec_strip_leading(s)[0] == '/'),
    decreases s.len(),
{
    if s.len() >= 2 && s[0] == '.' && s[1] == '/' {
        lemma_strip_leading_fixpoint(s.skip(2));
    } else if s.len() >= 1 && s[0] == '/' {
        lemma_strip_leading_fixpoint(s.skip(1));
    }
}

/// A normalized path starts with neither `/` nor `./`: stripping runs to a
/// fixpoint, and lower-casing moves no character onto `/` or `.`.
pub proof fn lemma_normalized_no_leading_prefix(s: Seq<char>)
    ensures
        !(spec_normalize_rel_path(s).len() >= 1 && spec_normalize_rel_path(s)[0] == '/'),
        !(spec_normalize_rel_path(s).len() >= 2 && spec_normalize_rel_path(s)[0] == '.'
            && spec_normalize_rel_path(s)[1] == '/'),
{
    lemma_strip_leading_fixpoint(spec_slashes(s));
    let stripped = spec_strip_leading(spec_slashes(s));
    let nrm = spec_normalize_rel_path(s);
    assert(nrm.len() == stripped.len());
    if nrm.len() >= 1 {
        assert(nrm[0] == spec_lower(stripped[0]));
    }
    if nrm.len() >= 2 {
        assert(nrm[1] == spec_lower(stripped[1]));
    }
}

/// A leading `/` or `./` does not change the comparison key: paths that
/// differ only by such prefixes normalize to the same string.
pub proof fn lemma_normalize_prefix_insensitive(s: Seq<char>)
    ensures
        spec_normalize_rel_path(seq!['/'] + s) == spec_normalize_rel_path(s),
        spec_normalize_rel_path(seq!['.', '/'] + s) == spec_normalize_rel_path(s),
{
    let x = spec_slashes(s);
    assert(spec_slashes(seq!['/'] + s) =~= seq!['/'] + x);
    assert(spec_slashes(seq!['.', '/'] + s) =~= seq!['.', '/'] + x);
    assert((seq!['/'] + x).skip(1) =~= x);
    assert((seq!['.', '/'] + x).skip(2) =~= x);
    assert(spec_strip_leading(seq!['/'] + x) == spec_strip_leading(x));
    assert(spec_strip_leading(seq!['.', '/'] + x) == spec_strip_leading(x));
}

/// One character of a directory name, folded for the staging comparison.
pub open spec fn spec_launch_token(s: Seq<char>) -> Seq<char> {
    s.map_values(|c: char| spec_launch_fold(c))
}

/// The canonical name of the staging directory.
pub open spec fn launch_canon() -> Seq<char> {
    seq!['l', 'a', 'n', 'c', 'a', 'm', 'e', 'n', 't', 'o', 's']
}

/// Folds a directory-name token for the staging comparison: lower-case, with
/// the accented vowels of the staging directory's natural spelling folded
/// onto plain letters.
pub fn normalize_launch_token(s: &str) -> (r: String)
    ensures
        r@ == spec_launch_token(s@),
{
    let v = chars_of(s);
    let n = v.len();
    let mut out: Vec<char> = Vec::new();
    for i in 0..n
        invariant
            n == v@.len(),
            out@ == spec_launch_token(v@.subrange(0, i as int)),
    {
        out.push(launch_fold(v[i]));
        assert(out@ =~= spec_launch_token(v@.subrange(0, i + 1 as int)));
    }
    assert(v@.subrange(0, n as int) =~= v@);
    string_of(&out)
}

/// The name denotes the staging directory.
pub open spec fn spec_is_launch_component(s: Seq<char>) -> bool {
    spec_launch_token(s) == launch_canon()
}

/// Whether a single path component names the staging directory.
pub fn is_launch_component(name: &str) -> (r: bool)
    ensures
        r == spec_is_launch_component(name@),
{
    let token = normalize_launch_token(name);
    let tv = chars_of(token.as_str());
    let canon = chars_of("lancamentos");
    proof {
        reveal_strlit("lancamentos");
        assert(canon@ =~= launch_canon());
    }
    chars_eq(&tv, &canon)
}

/// The components of a path, split at `/` and `\`.  Separators at the ends
/// or doubled separators yield empty components.
pub open spec fn spec_split_path(s: Seq<char>) -> Seq<Seq<char>>
    decreases s.len(),
{
    if s.len() == 0 {
        seq![Seq::<char>::empty()]
    } else if spec_is_sep(s[0]) {
        seq![Seq::<char>::empty()] + spec_split_path(s.drop_first())
    } else {
        let rest = spec_split_path(s.drop_first());
        rest.update(0, seq![s[0]] + rest[0])
    }
}

pub proof fn lemma_split_path_nonempty(s: Seq<char>)
    ensures
        spec_split_path(s).len() >= 1,
    decreases s.len(),
{
    if s.len() > 0 {
        lemma_split_path_nonempty(s.drop_first());
    }
}

/// A component that the staging exemption looks at: non-empty and not one of
/// the relative-reference names `.` and `..`.
pub open spec fn spec_is_normal_component(s: Seq<char>) -> bool {
    s.len() > 0 && s != seq!['.'] && s != seq!['.', '.']
}

/// Some component of the path names the staging directory.
pub open spec fn spec_in_launch_dir(s: Seq<char>) -> bool {
    exists|k: int|
        0 <= k < spec_split_path(s).len() && spec_is_normal_component(#[trigger] spec_split_path(s)[k])
            && spec_is_launch_component(spec_split_path(s)[k])
}

/// Splits a path into its components.
pub fn split_path(v: &Vec<char>) -> (r: Vec<Vec<char>>)
    ensures
        r@.len() == spec_split_path(v@).len(),
        forall|k: int| 0 <= k < r@.len() ==> r@[k]@ == spec_split_path(v@)[k],
{
    let n = v.len();
    let mut done: Vec<Vec<char>> = Vec::new();
    let mut cur: Vec<char> = Vec::new();
    let mut i: usize = 0;
    proof {
        assert(v@.skip(0) =~= v@);
        lemma_split_path_nonempty(v@);
        let s0 = spec_split_path(v@);
        assert(cur@ + s0[0] =~= s0[0]);
        assert(done@.map_values(|x: Vec<char>| x@) + s0.update(0, cur@ + s0[0]) =~~= s0);
    }
    while i < n
        invariant
            n == v@.len(),
            i <= n,
            spec_split_path(v@) == done@.map_values(|x: Vec<char>| x@) + spec_split_path(
                v@.skip(i as int),
            ).update(0, cur@ + spec_split_path(v@.skip(i as int))[0]),
        decreases n - i,
    {
        let c = v[i];
        proof {
            assert(v@.skip(i as int)[0] == v@[i as int]);
            assert(v@.skip(i as int).drop_first() =~= v@.skip(i as int + 1));
            lemma_split_path_nonempty(v@.skip(i as int + 1));
        }
        let ghost pre = spec_split_path(v@.skip(i as int));
        let ghost post = spec_split_path(v@.skip(i as int + 1));
        if is_sep(c) {
            proof {
                assert(pre =~~= seq![Seq::<char>::empty()] + post);
                assert(cur@ + pre[0] =~= cur@);
                assert(pre.update(0, cur@ + pre[0]) =~~= seq![cur@] + post);
                assert(Seq::<char>::empty() + post[0] =~= post[0]);
                assert(post.update(0, Seq::<char>::empty() + post[0]) =~~= post);
                assert((done@.push(cur)).map_values(|x: Vec<char>| x@) =~~= done@.map_values(
                    |x: Vec<char>| x@,
                ) + seq![cur@]);
                assert(done@.map_values(|x: Vec<char>| x@) + pre.update(0, cur@ + pre[0]) =~~= (
                done@.push(cur)).map_values(|x: Vec<char>| x@) + post.update(
                    0,
                    Seq::<char>::empty() + post[0],
                ));
            }
            done.push(cur);
            cur = Vec::new();
        } else {
            proof {
                assert(pre =~~= post.update(0, seq![v@[i as int]] + post[0]));
                assert(pre[0] == seq![v@[i as int]] + post[0]);
                assert(cur@ + pre[0] =~= (cur@.push(v@[i as int])) + post[0]);
                assert(pre.update(0, cur@ + pre[0]) =~~= post.update(
                    0,
                    (cur@.push(v@[i as int])) + post[0],
                ));
            }
            cur.push(c);
        }
        i = i + 1;
    }
    proof {
        assert(v@.skip(n as int) =~= Seq::<char>::empty());
        assert(spec_split_path(v@.skip(n as int)) =~~= seq![Seq::<char>::empty()]);
        assert(cur@ + Seq::<char>::empty() =~= cur@);
        assert(spec_split_path(v@.skip(n as int)).update(0, cur@ + Seq::<char>::empty()) =~~= seq![
            cur@,
        ]);
        assert(spec_split_path(v@) =~~= done@.map_values(|x: Vec<char>| x@) + seq![cur@]);
        assert((done@.push(cur)).map_values(|x: Vec<char>| x@) =~~= done@.map_values(
            |x: Vec<char>| x@,
        ) + seq![cur@]);
    }
    done.push(cur);
    proof {
        assert forall|k: int| 0 <= k < done@.len() implies done@[k]@ == spec_split_path(v@)[k] by {
            assert(done@.map_values(|x: Vec<char>| x@)[k] == done@[k]@);
        }
    }
    done
}

/// Whether a relative path (below the image root) lies under the staging
/// directory: some component of it, after folding, names that directory.
pub fn is_in_launch_dir(rel: &str) -> (r: bool)
    ensures
        r == spec_in_launch_dir(rel@),
{
    let v = chars_of(rel);
    let parts = split_path(&v);
    let canon = chars_of("lancamentos");
    proof {
        reveal_strlit("lancamentos");
        assert(canon@ =~= launch_canon());
    }
    let dot = chars_of(".");
    let dotdot = chars_of("..");
    proof {
        reveal_strlit(".");
        reveal_strlit("..");
        assert(dot@ =~= seq!['.']);
        assert(dotdot@ =~= seq!['.', '.']);
    }
    let n = parts.len();
    for k in 0..n
        invariant
            n == parts@.len(),
            parts@.len() == spec_split_path(rel@).len(),
            forall|j: int| 0 <= j < parts@.len() ==> parts@[j]@ == spec_split_path(rel@)[j],
            canon@ == launch_canon(),
            dot@ == seq!['.'],
            dotdot@ == seq!['.', '.'],
            forall|j: int|
                0 <= j < k ==> !(spec_is_normal_component(#[trigger] spec_split_path(rel@)[j])
                    && spec_is_launch_component(spec_split_path(rel@)[j])),
    {
        let part = &parts[k];
        if part.len() > 0 && !chars_eq(part, &dot) && !chars_eq(part, &dotdot) {
            let mut folded: Vec<char> = Vec::new();
            let pn = part.len();
            for i in 0..pn
                invariant
                    pn == part@.len(),
                    folded@ == spec_launch_token(part@.subrange(0, i as int)),
                decreases pn - i,
            {
                folded.push(launch_fold(part[i]));
                assert(folded@ =~= spec_launch_token(part@.subrange(0, i + 1 as int)));
            }
            assert(part@.subrange(0, pn as int) =~= part@);
            if chars_eq(&folded, &canon) {
                assert(spec_is_launch_component(spec_split_path(rel@)[k as int]));
                return true;
            }
        }
    }
    false
}

} // verus!
