//! The code matcher: deriving candidate catalog codes from an image
//! filename stem, and resolving the owning product.
//!
//! From one stem several candidate codes are derived — the whole stem
//! upper-cased, the portion before the first `_`, `-` or space, the stem
//! with non-alphanumeric characters stripped, and the maximal leading run
//! of digits.  The candidates are de-duplicated and returned sorted, so
//! matching is deterministic whatever order generated them.  The first
//! candidate the catalog knows wins.

use vstd::prelude::*;

use crate::chars::{is_alnum, is_digit, is_space, spec_is_alnum, spec_is_digit, spec_is_space,
    spec_upper, upper};
use crate::text::{chars_eq, chars_lt, chars_of, copy_chars, lemma_lex_connex, lemma_lex_trans,
    lex_lt, string_of};
use crate::paths::{spec_split_path, split_path, lemma_split_path_nonempty};

verus! {

/// What an image-indexing pass reports.
#[derive(Debug, Clone)]
pub struct ImageIndexResult {
    pub scanned: usize,
    pub matched: usize,
    pub inserted: usize,
}

/// The stem trimmed of surrounding ASCII whitespace, at the front.
pub open spec fn spec_trim_start(s: Seq<char>) -> Seq<char>
    decreases s.len(),
{
    if s.len() > 0 && spec_is_space(s[0]) {
        spec_trim_start(s.drop_first())
    } else {
        s
    }
}

/// The stem trimmed of surrounding ASCII whitespace, at the back.
pub open spec fn spec_trim_end(s: Seq<char>) -> Seq<char>
    decreases s.len(),
{
    if s.len() > 0 && spec_is_space(s.last()) {
        spec_trim_end(s.drop_last())
    } else {
        s
    }
}

/// Surrounding ASCII whitespace removed.
pub open spec fn spec_trim(s: Seq<char>) -> Seq<char> {
    spec_trim_end(spec_trim_start(s))
}

/// Every character ASCII-upper-cased.
pub open spec fn spec_upper_seq(s: Seq<char>) -> Seq<char> {
    s.map_values(|c: char| spec_upper(c))
}

/// The portion before the first occurrence of `sep`, or nothing when `sep`
/// does not occur.
pub open spec fn spec_before_first(s: Seq<char>, sep: char) -> Option<Seq<char>>
    decreases s.len(),
{
    if s.len() == 0 {
        None
    } else if s[0] == sep {
        Some(Seq::empty())
    } else {
        match spec_before_first(s.drop_first(), sep) {
            Some(p) => Some(seq![s[0]] + p),
            None => None,
        }
    }
}

/// Only the ASCII-alphanumeric characters, in order.
pub open spec fn spec_keep_alnum(s: Seq<char>) -> Seq<char>
    decreases s.len(),
{
    if s.len() == 0 {
        Seq::empty()
    } else if spec_is_alnum(s[0]) {
        seq![s[0]] + spec_keep_alnum(s.drop_first())
    } else {
        spec_keep_alnum(s.drop_first())
    }
}

/// The maximal leading run of decimal digits.
pub open spec fn spec_digit_prefix(s: Seq<char>) -> Seq<char>
    decreases s.len(),
{
    if s.len() > 0 && spec_is_digit(s[0]) {
        seq![s[0]] + spec_digit_prefix(s.drop_first())
    } else {
        Seq::empty()
    }
}

/// A separator's contribution to the candidate set: the non-empty portion
/// of the stem before its first occurrence.
pub open spec fn spec_sep_candidate(up: Seq<char>, sep: char) -> Set<Seq<char>> {
    match spec_before_first(up, sep) {
        Some(p) => if p.len() > 0 {
            set![p]
        } else {
            Set::empty()
        },
        None => Set::empty(),
    }
}

/// A derived form's contribution to the candidate set: itself unless empty.
pub open spec fn spec_nonempty_candidate(s: Seq<char>) -> Set<Seq<char>> {
    if s.len() > 0 {
        set![s]
    } else {
        Set::empty()
    }
}

/// The candidate codes derived from a filename stem: the trimmed stem
/// upper-cased, the portion before the first `_`, `-` or space, the
/// alphanumeric-only form, and the leading digit run — each when non-empty.
pub open spec fn spec_candidate_set(stem: Seq<char>) -> Set<Seq<char>> {
    let up = spec_upper_seq(spec_trim(stem));
    spec_nonempty_candidate(up).union(spec_sep_candidate(up, '_')).union(
        spec_sep_candidate(up, '-'),
    ).union(spec_sep_candidate(up, ' ')).union(
        spec_nonempty_candidate(spec_keep_alnum(up)),
    ).union(spec_nonempty_candidate(spec_digit_prefix(up)))
}

/// Strictly ascending in the lexicographic order — sorted, with no
/// duplicates.
pub open spec fn spec_sorted_unique(s: Seq<Seq<char>>) -> bool {
    forall|i: int, j: int| 0 <= i < j < s.len() ==> lex_lt(#[trigger] s[i], #[trigger] s[j])
}

/// The texts of a vector of character vectors.
pub open spec fn spec_views(s: Seq<Vec<char>>) -> Seq<Seq<char>> {
    s.map_values(|x: Vec<char>| x@)
}

/// `s` occurs among `views`.
pub open spec fn spec_mem(views: Seq<Seq<char>>, s: Seq<char>) -> bool {
    exists|k: int| 0 <= k < views.len() && views[k] == s
}

/// The texts of a vector of strings.
pub open spec fn spec_str_views(s: Seq<String>) -> Seq<Seq<char>> {
    s.map_values(|x: String| x@)
}

proof fn lemma_before_first_at(s: Seq<char>, sep: char, k: int)
    requires
        0 <= k < s.len(),
        s[k] == sep,
        forall|l: int| 0 <= l < k ==> s[l] != sep,
    ensures
        spec_before_first(s, sep) == Some(s.take(k)),
    decreases k,
{
    if k == 0 {
        assert(s.take(0) =~= Seq::<char>::empty());
    } else {
        lemma_before_first_at(s.drop_first(), sep, k - 1);
        assert(seq![s[0]] + s.drop_first().take(k - 1) =~= s.take(k));
    }
}

proof fn lemma_before_first_none(s: Seq<char>, sep: char)
    requires
        forall|l: int| 0 <= l < s.len() ==> s[l] != sep,
    ensures
        spec_before_first(s, sep) is None,
    decreases s.len(),
{
    if s.len() > 0 {
        lemma_before_first_none(s.drop_first(), sep);
    }
}

/// The portion of `v` before the first occurrence of `sep`, when `sep`
/// occurs.
fn before_first(v: &Vec<char>, sep: char) -> (r: Option<Vec<char>>)
    ensures
        match r {
            Some(p) => spec_before_first(v@, sep) == Some(p@),
            None => spec_before_first(v@, sep) is None,
        },
{
    let n = v.len();
    for k in 0..n
        invariant
            n == v@.len(),
            forall|l: int| 0 <= l < k ==> v@[l] != sep,
    {
        if v[k] == sep {
            let mut p: Vec<char> = Vec::new();
            for l in 0..k
                invariant
                    k < n && n == v@.len(),
                    p@ == v@.subrange(0, l as int),
                decreases k - l,
            {
                p.push(v[l]);
                assert(p@ =~= v@.subrange(0, l + 1 as int));
            }
            proof {
                lemma_before_first_at(v@, sep, k as int);
                assert(v@.take(k as int) =~= v@.subrange(0, k as int));
            }
            return Some(p);
        }
    }
    proof {
        lemma_before_first_none(v@, sep);
    }
    None
}

/// Inserts a candidate into a sorted, duplicate-free list, keeping it so.
fn insert_candidate(out: &mut Vec<Vec<char>>, cand: Vec<char>)
    requires
        spec_sorted_unique(spec_views(old(out)@)),
    ensures
        spec_sorted_unique(spec_views(final(out)@)),
        forall|s: Seq<char>| #[trigger]
            spec_mem(spec_views(final(out)@), s) <==> (spec_mem(spec_views(old(out)@), s) || s
                == cand@),
{
    let n = out.len();
    let mut k: usize = 0;
    while k < n && chars_lt(&out[k], &cand)
        invariant
            n == out@.len(),
            k <= n,
            spec_sorted_unique(spec_views(out@)),
            forall|l: int| 0 <= l < k ==> lex_lt(#[trigger] spec_views(out@)[l], cand@),
        decreases n - k,
    {
        assert(spec_views(out@)[k as int] == out@[k as int]@);
        k = k + 1;
    }
    let ghost old_views = spec_views(out@);
    if k < n {
        assert(spec_views(out@)[k as int] == out@[k as int]@);
        if chars_eq(&out[k], &cand) {
            // already present: membership and order are unchanged
            assert(spec_views(out@)[k as int] == cand@);
            assert(forall|s: Seq<char>| #[trigger] spec_mem(spec_views(out@), s) <==> (spec_mem(
                spec_views(out@),
                s,
            ) || s == cand@));
            return ;
        }
    }
    proof {
        if k < n {
            lemma_lex_connex(old_views[k as int], cand@);
        }
    }
    out.insert(k, cand);
    proof {
        let new_views = spec_views(out@);
        assert(new_views.len() == old_views.len() + 1);
        assert(new_views[k as int] == cand@);
        assert forall|l: int| 0 <= l < k implies new_views[l] == old_views[l] by {
            assert(new_views[l] == out@[l]@);
        }
        assert forall|l: int| k < l < new_views.len() implies new_views[l] == old_views[l - 1] by {
            assert(new_views[l] == out@[l]@);
        }
        assert forall|i: int, j: int| 0 <= i < j < new_views.len() implies lex_lt(
            #[trigger] new_views[i],
            #[trigger] new_views[j],
        ) by {
            if i == k {
                // cand sits below everything that was at or above position k
                assert(!lex_lt(old_views[k as int], cand@));
                if j - 1 > k {
                    lemma_lex_trans(cand@, old_views[k as int], old_views[j - 1]);
                }
            } else if j == k {
                if i < k {
                    assert(lex_lt(old_views[i], cand@));
                }
            } else if i < k && j > k {
                assert(lex_lt(old_views[i], old_views[j - 1]));
            }
        }
        assert forall|s: Seq<char>|
            spec_mem(new_views, s) <==> (spec_mem(old_views, s) || s == cand@) by {
            if spec_mem(new_views, s) {
                let l = choose|l: int| 0 <= l < new_views.len() && new_views[l] == s;
                if l < k {
                    assert(old_views[l] == s);
                    assert(spec_mem(old_views, s));
                } else if l > k {
                    assert(old_views[l - 1] == s);
                    assert(spec_mem(old_views, s));
                }
            }
            if spec_mem(old_views, s) {
                let l = choose|l: int| 0 <= l < old_views.len() && old_views[l] == s;
                if l < k {
                    assert(new_views[l] == s);
                } else {
                    assert(new_views[l + 1] == s);
                }
                assert(spec_mem(new_views, s));
            }
            if s == cand@ {
                assert(new_views[k as int] == s);
                assert(spec_mem(new_views, s));
            }
        }
    }
}

/// Adds the candidate a separator contributes, if any: the non-empty
/// portion of the stem before the separator's first occurrence.
fn add_sep_candidate(out: &mut Vec<Vec<char>>, up: &Vec<char>, sep: char)
    requires
        spec_sorted_unique(spec_views(old(out)@)),
    ensures
        spec_sorted_unique(spec_views(final(out)@)),
        forall|s: Seq<char>| #[trigger]
            spec_mem(spec_views(final(out)@), s) <==> (spec_mem(spec_views(old(out)@), s)
                || spec_sep_candidate(up@, sep).contains(s)),
{
    match before_first(up, sep) {
        Some(p) => {
            if p.len() > 0 {
                insert_candidate(out, p);
            }
        },
        None => {},
    }
}

/// Surrounding ASCII whitespace removed.
pub fn trim_chars(v: &Vec<char>) -> (r: Vec<char>)
    ensures
        r@ == spec_trim(v@),
{
    let n = v.len();
    let mut start: usize = 0;
    assert(v@.skip(0) =~= v@);
    while start < n && is_space(v[start])
        invariant
            n == v@.len(),
            start <= n,
            spec_trim_start(v@) == spec_trim_start(v@.skip(start as int)),
        decreases n - start,
    {
        assert(v@.skip(start as int)[0] == v@[start as int]);
        assert(v@.skip(start as int).drop_first() =~= v@.skip(start as int + 1));
        start = start + 1;
    }
    proof {
        if start < n {
            assert(v@.skip(start as int)[0] == v@[start as int]);
        }
    }
    assert(spec_trim_start(v@) == v@.skip(start as int));

    let mut end: usize = n;
    while end > start && is_space(v[end - 1])
        invariant
            n == v@.len(),
            start <= end <= n,
            spec_trim_start(v@) == v@.skip(start as int),
            spec_trim_end(v@.skip(start as int)) == spec_trim_end(
                v@.subrange(start as int, end as int),
            ),
        decreases end,
    {
        assert(v@.subrange(start as int, end as int).last() == v@[end - 1]);
        assert(v@.subrange(start as int, end as int).drop_last() =~= v@.subrange(
            start as int,
            end - 1,
        ));
        end = end - 1;
    }
    assert(v@.skip(start as int) =~= v@.subrange(start as int, n as int));
    proof {
        if end > start {
            assert(v@.subrange(start as int, end as int).last() == v@[end - 1]);
        }
    }
    assert(spec_trim(v@) == v@.subrange(start as int, end as int));

    let mut r: Vec<char> = Vec::new();
    let mut i: usize = start;
    while i < end
        invariant
            start <= i <= end <= n,
            n == v@.len(),
            r@ == v@.subrange(start as int, i as int),
        decreases end - i,
    {
        r.push(v[i]);
        assert(r@ =~= v@.subrange(start as int, i + 1 as int));
        i = i + 1;
    }
    r
}

/// Derives the candidate catalog codes for a filename stem, sorted and
/// de-duplicated so the match order is deterministic.
pub fn candidate_codes(stem: &str) -> (r: Vec<String>)
    ensures
        spec_sorted_unique(spec_str_views(r@)),
        forall|s: Seq<char>| #[trigger]
            spec_mem(spec_str_views(r@), s) <==> spec_candidate_set(stem@).contains(s),
{
    let v = chars_of(stem);

    // trim the stem and upper-case it
    let trimmed = trim_chars(&v);
    let tn = trimmed.len();
    let mut up: Vec<char> = Vec::new();
    for i in 0..tn
        invariant
            tn == trimmed@.len(),
            trimmed@ == spec_trim(v@),
            up@ == spec_upper_seq(trimmed@.subrange(0, i as int)),
    {
        up.push(upper(trimmed[i]));
        assert(up@ =~= spec_upper_seq(trimmed@.subrange(0, i + 1 as int)));
    }
    assert(trimmed@.subrange(0, tn as int) =~= trimmed@);
    assert(up@ == spec_upper_seq(spec_trim(v@)));

    let mut out: Vec<Vec<char>> = Vec::new();

    // the whole stem
    let ghost mid0 = spec_nonempty_candidate(up@);
    if up.len() > 0 {
        let whole = copy_chars(&up);
        insert_candidate(&mut out, whole);
    }
    assert(forall|s: Seq<char>| #[trigger] spec_mem(spec_views(out@), s) <==> mid0.contains(s));

    // the portion before the first separator, for each separator
    let ghost mid1 = mid0.union(spec_sep_candidate(up@, '_'));
    let ghost mid2 = mid1.union(spec_sep_candidate(up@, '-'));
    let ghost mid3 = mid2.union(spec_sep_candidate(up@, ' '));
    add_sep_candidate(&mut out, &up, '_');
    assert(forall|s: Seq<char>| #[trigger] spec_mem(spec_views(out@), s) <==> mid1.contains(s));
    add_sep_candidate(&mut out, &up, '-');
    assert(forall|s: Seq<char>| #[trigger] spec_mem(spec_views(out@), s) <==> mid2.contains(s));
    add_sep_candidate(&mut out, &up, ' ');
    assert(forall|s: Seq<char>| #[trigger] spec_mem(spec_views(out@), s) <==> mid3.contains(s));

    // only the alphanumeric characters
    let mut alnum: Vec<char> = Vec::new();
    let un = up.len();
    assert(up@.skip(0) =~= up@);
    assert(alnum@ + spec_keep_alnum(up@) =~= spec_keep_alnum(up@));
    for j in 0..un
        invariant
            un == up@.len(),
            alnum@ + spec_keep_alnum(up@.skip(j as int)) == spec_keep_alnum(up@),
    {
        assert(up@.skip(j as int)[0] == up@[j as int]);
        assert(up@.skip(j as int).drop_first() =~= up@.skip(j + 1));
        if is_alnum(up[j]) {
            let ghost before = alnum@;
            alnum.push(up[j]);
            assert(alnum@ + spec_keep_alnum(up@.skip(j + 1)) =~= before + (seq![up@[j as int]]
                + spec_keep_alnum(up@.skip(j + 1))));
        }
    }
    assert(up@.skip(un as int) =~= Seq::<char>::empty());
    assert(spec_keep_alnum(up@.skip(un as int)) =~= Seq::<char>::empty());
    assert(alnum@ =~= spec_keep_alnum(up@));
    let ghost mid4 = mid3.union(spec_nonempty_candidate(spec_keep_alnum(up@)));
    if alnum.len() > 0 {
        insert_candidate(&mut out, alnum);
    }
    assert(forall|s: Seq<char>| #[trigger] spec_mem(spec_views(out@), s) <==> mid4.contains(s));

    // the leading run of digits
    let mut digits: Vec<char> = Vec::new();
    let mut j: usize = 0;
    while j < un && is_digit(up[j])
        invariant
            un == up@.len(),
            j <= un,
            digits@ == up@.subrange(0, j as int),
            forall|l: int| 0 <= l < j ==> spec_is_digit(up@[l]),
        decreases un - j,
    {
        digits.push(up[j]);
        assert(digits@ =~= up@.subrange(0, j + 1 as int));
        j = j + 1;
    }
    proof {
        lemma_digit_prefix_at(up@, j as int);
    }
    let ghost mid5 = mid4.union(spec_nonempty_candidate(spec_digit_prefix(up@)));
    if digits.len() > 0 {
        insert_candidate(&mut out, digits);
    }
    assert(forall|s: Seq<char>| #[trigger] spec_mem(spec_views(out@), s) <==> mid5.contains(s));

    // hand the codes out as strings
    let m = out.len();
    let mut r: Vec<String> = Vec::new();
    for k in 0..m
        invariant
            m == out@.len(),
            r@.len() == k,
            forall|l: int| 0 <= l < k ==> (#[trigger] spec_str_views(r@)[l])
                == spec_views(out@)[l],
    {
        let ghost prev = r@;
        r.push(string_of(&out[k]));
        assert forall|l: int| 0 <= l < k + 1 implies spec_str_views(r@)[l] == spec_views(out@)[l] by {
            assert(spec_str_views(r@)[l] == r@[l]@);
            assert(spec_views(out@)[l] == out@[l]@);
            if l < k {
                assert(spec_str_views(prev)[l] == prev[l]@);
                assert(r@[l] == prev[l]);
            }
        }
    }
    proof {
        assert(spec_str_views(r@) =~= spec_views(out@));
        assert(mid5 =~= spec_candidate_set(stem@));
    }
    r
}

proof fn lemma_digit_prefix_at(s: Seq<char>, j: int)
    requires
        0 <= j <= s.len(),
        forall|l: int| 0 <= l < j ==> spec_is_digit(s[l]),
        j < s.len() ==> !spec_is_digit(s[j]),
    ensures
        spec_digit_prefix(s) == s.subrange(0, j),
    decreases j,
{
    if j == 0 {
        assert(s.subrange(0, 0) =~= Seq::<char>::empty());
    } else {
        lemma_digit_prefix_at(s.drop_first(), j - 1);
        assert(seq![s[0]] + s.drop_first().subrange(0, j - 1) =~= s.subrange(0, j));
    }
}

/// Resolves the first matching candidate: the application looks each
/// candidate up in the catalog (in order) and hands the answers back; the
/// first hit wins.
pub fn first_match(answers: &Vec<Option<i64>>) -> (r: Option<(usize, i64)>)
    ensures
        match r {
            Some(hit) => {
                &&& hit.0 < answers@.len()
                &&& answers@[hit.0 as int] == Some(hit.1)
                &&& forall|l: int| 0 <= l < hit.0 ==> answers@[l] is None
            },
            None => forall|l: int| 0 <= l < answers@.len() ==> answers@[l] is None,
        },
{
    let n = answers.len();
    for k in 0..n
        invariant
            n == answers@.len(),
            forall|l: int| 0 <= l < k ==> answers@[l] is None,
    {
        match answers[k] {
            Some(pid) => {
                return Some((k, pid));
            },
            None => {},
        }
    }
    None
}

/// The stem of a listed file: the last path segment, up to its first dot.
pub open spec fn spec_stem_of(s: Seq<char>) -> Seq<char> {
    let last = spec_split_path(s).last();
    match spec_before_first(last, '.') {
        Some(p) => p,
        None => last,
    }
}

/// Extracts the filename stem that candidate codes are derived from: the
/// last path segment, with everything from the first dot on dropped.
pub fn stem_of_path(file: &str) -> (r: String)
    ensures
        r@ == spec_stem_of(file@),
{
    let v = chars_of(file);
    let parts = split_path(&v);
    proof {
        lemma_split_path_nonempty(v@);
    }
    let last = &parts[parts.len() - 1];
    assert(last@ == spec_split_path(v@).last());
    match before_first(last, '.') {
        Some(p) => string_of(&p),
        None => string_of(last),
    }
}

/// Tallies an indexing pass: every file seen counts as scanned, every file
/// whose candidates resolved counts as matched, and every row actually
/// written counts as inserted.
pub fn index_tally(matched: &Vec<bool>, inserted: &Vec<bool>) -> (r: ImageIndexResult)
    requires
        matched@.len() == inserted@.len(),
    ensures
        r.scanned == matched@.len(),
        r.matched == crate::downloader::spec_count_ok(matched@, matched@.len() as int),
        r.inserted == crate::downloader::spec_count_ok(inserted@, inserted@.len() as int),
{
    let n = matched.len();
    let mut m: usize = 0;
    let mut ins: usize = 0;
    for i in 0..n
        invariant
            n == matched@.len(),
            inserted@.len() == matched@.len(),
            m <= i && ins <= i,
            m == crate::downloader::spec_count_ok(matched@, i as int),
            ins == crate::downloader::spec_count_ok(inserted@, i as int),
    {
        if matched[i] {
            m = m + 1;
        }
        if inserted[i] {
            ins = ins + 1;
        }
    }
    ImageIndexResult { scanned: n, matched: m, inserted: ins }
}

} // verus!
