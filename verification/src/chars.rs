//! Character classification and folding used by the filename, header and
//! path normalization rules.

use vstd::prelude::*;

verus! {

/// A decimal digit.
pub open spec fn spec_is_digit(c: char) -> bool {
    '0' <= c && c <= '9'
}

/// An ASCII letter or decimal digit.
pub open spec fn spec_is_alnum(c: char) -> bool {
    spec_is_digit(c) || ('A' <= c && c <= 'Z') || ('a' <= c && c <= 'z')
}

/// Whitespace as the standard trim sees it: the Unicode `White_Space`
/// characters, which is what gets trimmed from filename stems and header
/// cells and what makes a password blank.
pub open spec fn spec_is_space(c: char) -> bool {
    ('\u{0009}' <= c && c <= '\u{000D}') || c == ' ' || c == '\u{0085}' || c == '\u{00A0}' || c
        == '\u{1680}' || ('\u{2000}' <= c && c <= '\u{200A}') || c == '\u{2028}' || c == '\u{2029}'
        || c == '\u{202F}' || c == '\u{205F}' || c == '\u{3000}'
}

/// ASCII upper-casing: `a`..`z` map to `A`..`Z`, everything else is kept.
pub open spec fn spec_upper(c: char) -> char {
    if 'a' <= c && c <= 'z' {
        (c as int - 32) as char
    } else {
        c
    }
}

/// ASCII lower-casing: `A`..`Z` map to `a`..`z`, everything else is kept.
pub open spec fn spec_lower(c: char) -> char {
    if 'A' <= c && c <= 'Z' {
        (c as int + 32) as char
    } else {
        c
    }
}

/// Folds the accented upper-case vowels (and cedilla) of Portuguese headers
/// onto their plain ASCII letter; other characters are kept.
pub open spec fn spec_fold_accent_upper(c: char) -> char {
    if c == 'Á' || c == 'À' || c == 'Ã' || c == 'Â' || c == 'Ä' {
        'A'
    } else if c == 'É' || c == 'È' || c == 'Ê' || c == 'Ë' {
        'E'
    } else if c == 'Í' || c == 'Ì' || c == 'Î' || c == 'Ï' {
        'I'
    } else if c == 'Ó' || c == 'Ò' || c == 'Õ' || c == 'Ô' || c == 'Ö' {
        'O'
    } else if c == 'Ú' || c == 'Ù' || c == 'Û' || c == 'Ü' {
        'U'
    } else if c == 'Ç' {
        'C'
    } else {
        c
    }
}

/// Header-cell normalization of one character: ASCII upper-casing followed
/// by the accent fold.
pub open spec fn spec_norm_char(c: char) -> char {
    spec_fold_accent_upper(spec_upper(c))
}

/// Staging-directory-name normalization of one character: lower-casing (both
/// the ASCII letters and the accented vowels that occur in the staging
/// directory's name) followed by folding `a`-accents onto `a` and cedilla
/// onto `c`.
pub open spec fn spec_launch_fold(c: char) -> char {
    if c == 'ã' || c == 'á' || c == 'â' || c == 'à' || c == 'ä' || c == 'Ã' || c == 'Á' || c == 'Â'
        || c == 'À' || c == 'Ä' {
        'a'
    } else if c == 'ç' || c == 'Ç' {
        'c'
    } else {
        spec_lower(c)
    }
}

pub fn fold_accent_upper(c: char) -> (r: char)
    ensures
        r == spec_fold_accent_upper(c),
{
    match c {
        'Á' | 'À' | 'Ã' | 'Â' | 'Ä' => 'A',
        'É' | 'È' | 'Ê' | 'Ë' => 'E',
        'Í' | 'Ì' | 'Î' | 'Ï' => 'I',
        'Ó' | 'Ò' | 'Õ' | 'Ô' | 'Ö' => 'O',
        'Ú' | 'Ù' | 'Û' | 'Ü' => 'U',
        'Ç' => 'C',
        other => other,
    }
}

pub fn norm_char(c: char) -> (r: char)
    ensures
        r == spec_norm_char(c),
{
    fold_accent_upper(upper(c))
}

pub fn launch_fold(c: char) -> (r: char)
    ensures
        r == spec_launch_fold(c),
{
    match c {
        'ã' | 'á' | 'â' | 'à' | 'ä' | 'Ã' | 'Á' | 'Â' | 'À' | 'Ä' => 'a',
        'ç' | 'Ç' => 'c',
        other => lower(other),
    }
}

pub fn is_digit(c: char) -> (r: bool)
    ensures
        r == spec_is_digit(c),
{
    '0' <= c && c <= '9'
}

pub fn is_alnum(c: char) -> (r: bool)
    ensures
        r == spec_is_alnum(c),
{
    is_digit(c) || ('A' <= c && c <= 'Z') || ('a' <= c && c <= 'z')
}

pub fn is_space(c: char) -> (r: bool)
    ensures
        r == spec_is_space(c),
{
    ('\u{0009}' <= c && c <= '\u{000D}') || c == ' ' || c == '\u{0085}' || c == '\u{00A0}' || c
        == '\u{1680}' || ('\u{2000}' <= c && c <= '\u{200A}') || c == '\u{2028}' || c == '\u{2029}'
        || c == '\u{202F}' || c == '\u{205F}' || c == '\u{3000}'
}

pub fn upper(c: char) -> (r: char)
    ensures
        r == spec_upper(c),
{
    match c {
        'a' => 'A',
        'b' => 'B',
        'c' => 'C',
        'd' => 'D',
        'e' => 'E',
        'f' => 'F',
        'g' => 'G',
        'h' => 'H',
        'i' => 'I',
        'j' => 'J',
        'k' => 'K',
        'l' => 'L',
        'm' => 'M',
        'n' => 'N',
        'o' => 'O',
        'p' => 'P',
        'q' => 'Q',
        'r' => 'R',
        's' => 'S',
        't' => 'T',
        'u' => 'U',
        'v' => 'V',
        'w' => 'W',
        'x' => 'X',
        'y' => 'Y',
        'z' => 'Z',
        other => other,
    }
}

pub fn lower(c: char) -> (r: char)
    ensures
        r == spec_lower(c),
{
    match c {
        'A' => 'a',
        'B' => 'b',
        'C' => 'c',
        'D' => 'd',
        'E' => 'e',
        'F' => 'f',
        'G' => 'g',
        'H' => 'h',
        'I' => 'i',
        'J' => 'j',
        'K' => 'k',
        'L' => 'l',
        'M' => 'm',
        'N' => 'n',
        'O' => 'o',
        'P' => 'p',
        'Q' => 'q',
        'R' => 'r',
        'S' => 's',
        'T' => 't',
        'U' => 'u',
        'V' => 'v',
        'W' => 'w',
        'X' => 'x',
        'Y' => 'y',
        'Z' => 'z',
        other => other,
    }
}

} // verus!
