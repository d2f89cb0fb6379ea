//! Header normalization for the spreadsheet ingestion path: mapping the
//! column headers of an uploaded workbook onto the catalog's fields.

use vstd::prelude::*;

use crate::chars::{norm_char, spec_norm_char, spec_upper, upper};
use crate::codes::{spec_trim, trim_chars};
use crate::text::{chars_of, string_of};

verus! {

/// What a finished workbook import reports.
#[derive(Debug, Clone)]
pub struct ImportResult {
    pub processed_rows: usize,
    pub upserted_products: usize,
    pub linked_vehicles: usize,
    pub new_db_version: i64,
}

/// A header cell normalized for comparison: trimmed, upper-cased, with the
/// accented vowels folded onto plain letters.
pub open spec fn spec_norm(s: Seq<char>) -> Seq<char> {
    spec_trim(s).map_values(|c: char| spec_norm_char(c))
}

/// Normalizes a header cell: trims surrounding whitespace, upper-cases, and
/// folds the accented vowels of Portuguese headers onto their plain
/// letters.
pub fn norm(s: &str) -> (r: String)
    ensures
        r@ == spec_norm(s@),
{
    let v = chars_of(s);
    let t = trim_chars(&v);
    let n = t.len();
    let mut out: Vec<char> = Vec::new();
    for i in 0..n
        invariant
            n == t@.len(),
            t@ == spec_trim(v@),
            out@ == t@.subrange(0, i as int).map_values(|c: char| spec_norm_char(c)),
    {
        out.push(norm_char(t[i]));
        assert(out@ =~= t@.subrange(0, i + 1 as int).map_values(|c: char| spec_norm_char(c)));
    }
    assert(t@.subrange(0, n as int) =~= t@);
    string_of(&out)
}

/// Which catalog field a header cell names, by its normalized text.
pub open spec fn spec_header_key(s: Seq<char>) -> Seq<char> {
    let n = spec_norm(s);
    if n == "FABRICANTE"@ || n == "MARCA"@ {
        "brand"@
    } else if n == "CODIGO"@ || n == "COD"@ || n == "REFERENCIA"@ || n == "REF"@ {
        "code"@
    } else if n == "DESCRICAO"@ {
        "description"@
    } else if n == "GRUPO"@ || n == "GRUPO DE PRODUTOS"@ || n == "CATEGORIA"@ {
        "group"@
    } else if n == "APLICACAO"@ {
        "application"@
    } else if n == "MONTADORA"@ || n == "MONTADORA/S"@ {
        "make"@
    } else if n == "OEM"@ {
        "oem"@
    } else if n == "SIMILAR"@ {
        "similar"@
    } else {
        "ignore"@
    }
}

/// Maps a header cell onto the catalog field it names, or `ignore`.
pub fn header_key(s: &str) -> (r: &'static str)
    ensures
        r@ == spec_header_key(s@),
{
    let n = norm(s);
    let nv = chars_of(n.as_str());
    proof {
        reveal_strlit("FABRICANTE");
        reveal_strlit("MARCA");
        reveal_strlit("CODIGO");
        reveal_strlit("COD");
        reveal_strlit("REFERENCIA");
        reveal_strlit("REF");
        reveal_strlit("DESCRICAO");
        reveal_strlit("GRUPO");
        reveal_strlit("GRUPO DE PRODUTOS");
        reveal_strlit("CATEGORIA");
        reveal_strlit("APLICACAO");
        reveal_strlit("MONTADORA");
        reveal_strlit("MONTADORA/S");
        reveal_strlit("OEM");
        reveal_strlit("SIMILAR");
    }
    if chars_eq_lit(&nv, "FABRICANTE") || chars_eq_lit(&nv, "MARCA") {
        "brand"
    } else if chars_eq_lit(&nv, "CODIGO") || chars_eq_lit(&nv, "COD") || chars_eq_lit(
        &nv,
        "REFERENCIA",
    ) || chars_eq_lit(&nv, "REF") {
        "code"
    } else if chars_eq_lit(&nv, "DESCRICAO") {
        "description"
    } else if chars_eq_lit(&nv, "GRUPO") || chars_eq_lit(&nv, "GRUPO DE PRODUTOS") || chars_eq_lit(
        &nv,
        "CATEGORIA",
    ) {
        "group"
    } else if chars_eq_lit(&nv, "APLICACAO") {
        "application"
    } else if chars_eq_lit(&nv, "MONTADORA") || chars_eq_lit(&nv, "MONTADORA/S") {
        "make"
    } else if chars_eq_lit(&nv, "OEM") {
        "oem"
    } else if chars_eq_lit(&nv, "SIMILAR") {
        "similar"
    } else {
        "ignore"
    }
}

/// Compares a character vector against a literal.
fn chars_eq_lit(v: &Vec<char>, lit: &str) -> (r: bool)
    ensures
        r == (v@ == lit@),
{
    crate::text::str_eq(crate::text::string_of(v).as_str(), lit)
}

/// `pat` occurs as a contiguous run within `s`.
pub open spec fn spec_contains_sub(s: Seq<char>, pat: Seq<char>) -> bool {
    exists|i: int|
        0 <= i && i + pat.len() <= s.len() && #[trigger] s.subrange(i, i + pat.len()) == pat
}

/// Substring search on character vectors.
pub fn chars_contains(s: &Vec<char>, pat: &Vec<char>) -> (r: bool)
    ensures
        r == spec_contains_sub(s@, pat@),
{
    let n = s.len();
    let m = pat.len();
    if m > n {
        return false;
    }
    let last = n - m;
    let mut i: usize = 0;
    while i <= last
        invariant
            n == s@.len(),
            m == pat@.len(),
            m <= n,
            last == n - m,
            i <= last + 1,
            forall|l: int| 0 <= l < i ==> #[trigger] s@.subrange(l, l + pat@.len()) != pat@,
        decreases last + 1 - i,
    {
        let mut all = true;
        for j in 0..m
            invariant
                n == s@.len(),
                m == pat@.len(),
                i + m <= n,
                all <==> (forall|t: int| 0 <= t < j ==> s@[i + t] == pat@[t]),
        {
            if s[i + j] != pat[j] {
                if all {
                    assert(s@[i + j as int] != pat@[j as int]);
                }
                all = false;
            }
        }
        if all {
            assert(s@.subrange(i as int, i + pat@.len()) =~= pat@);
            return true;
        }
        assert(s@.subrange(i as int, i + pat@.len()) != pat@) by {
            let t = choose|t: int| 0 <= t < m && s@[i + t] != pat@[t];
            assert(s@.subrange(i as int, i + pat@.len())[t] == s@[i + t]);
        }
        i = i + 1;
    }
    assert forall|l: int| 0 <= l && l + pat@.len() <= s@.len() implies #[trigger] s@.subrange(
        l,
        l + pat@.len(),
    ) != pat@ by {
        assert(l < i);
    }
    false
}

/// The header cell announces the details/notes column: its upper-cased text
/// contains one of the note keywords.
pub open spec fn spec_is_details_header(s: Seq<char>) -> bool {
    let t = s.map_values(|c: char| spec_upper(c));
    spec_contains_sub(t, "DETAL"@) || spec_contains_sub(t, "OBSERV"@) || t == "OBS"@
        || spec_contains_sub(t, "NOTA"@)
}

/// Whether a header cell announces the details/notes column.
pub fn is_details_header(s: &str) -> (r: bool)
    ensures
        r == spec_is_details_header(s@),
{
    let v = chars_of(s);
    let n = v.len();
    let mut t: Vec<char> = Vec::new();
    for i in 0..n
        invariant
            n == v@.len(),
            t@ == v@.subrange(0, i as int).map_values(|c: char| spec_upper(c)),
    {
        t.push(upper(v[i]));
        assert(t@ =~= v@.subrange(0, i + 1 as int).map_values(|c: char| spec_upper(c)));
    }
    assert(v@.subrange(0, n as int) =~= v@);
    let detal = chars_of("DETAL");
    let observ = chars_of("OBSERV");
    let obs = chars_of("OBS");
    let nota = chars_of("NOTA");
    proof {
        reveal_strlit("DETAL");
        reveal_strlit("OBSERV");
        reveal_strlit("OBS");
        reveal_strlit("NOTA");
    }
    chars_contains(&t, &detal) || chars_contains(&t, &observ) || crate::text::chars_eq(&t, &obs)
        || chars_contains(&t, &nota)
}

/// The first column whose header names the given catalog field.
pub fn first_key_column(headers: &Vec<String>, key: &str) -> (r: Option<usize>)
    ensures
        match r {
            Some(i) => {
                &&& i < headers@.len()
                &&& spec_header_key(headers@[i as int]@) == key@
                &&& forall|l: int| 0 <= l < i ==> spec_header_key(#[trigger] headers@[l]@) != key@
            },
            None => forall|l: int|
                0 <= l < headers@.len() ==> spec_header_key(#[trigger] headers@[l]@) != key@,
        },
{
    let n = headers.len();
    for i in 0..n
        invariant
            n == headers@.len(),
            forall|l: int| 0 <= l < i ==> spec_header_key(#[trigger] headers@[l]@) != key@,
    {
        let k = header_key(headers[i].as_str());
        if crate::text::str_eq(k, key) {
            return Some(i);
        }
    }
    None
}

/// The first column whose header announces the details/notes column.
pub fn first_details_column(headers: &Vec<String>) -> (r: Option<usize>)
    ensures
        match r {
            Some(i) => {
                &&& i < headers@.len()
                &&& spec_is_details_header(headers@[i as int]@)
                &&& forall|l: int| 0 <= l < i ==> !spec_is_details_header(#[trigger] headers@[l]@)
            },
            None => forall|l: int|
                0 <= l < headers@.len() ==> !spec_is_details_header(#[trigger] headers@[l]@),
        },
{
    let n = headers.len();
    for i in 0..n
        invariant
            n == headers@.len(),
            forall|l: int| 0 <= l < i ==> !spec_is_details_header(#[trigger] headers@[l]@),
    {
        if is_details_header(headers[i].as_str()) {
            return Some(i);
        }
    }
    None
}

} // verus!
