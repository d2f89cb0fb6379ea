//! Image type detection for serving bytes to the interface, and the
//! extension allow-lists used when scanning directories for images.

use vstd::prelude::*;

use crate::chars::{lower, spec_lower};
use crate::paths::{lemma_split_path_nonempty, spec_split_path, split_path};
use crate::text::{chars_eq, chars_of};

verus! {

/// The bytes start with the PNG signature.
pub open spec fn spec_is_png(b: Seq<u8>) -> bool {
    b.len() >= 8 && b[0] == 0x89u8 && b[1] == 0x50u8 && b[2] == 0x4eu8 && b[3] == 0x47u8 && b[4]
        == 0x0du8 && b[5] == 0x0au8 && b[6] == 0x1au8 && b[7] == 0x0au8
}

/// The bytes start with the JPEG signature.
pub open spec fn spec_is_jpeg(b: Seq<u8>) -> bool {
    b.len() >= 3 && b[0] == 0xffu8 && b[1] == 0xd8u8 && b[2] == 0xffu8
}

/// The bytes start with a RIFF/WEBP header.
pub open spec fn spec_is_webp(b: Seq<u8>) -> bool {
    b.len() >= 12 && b[0] == 0x52u8 && b[1] == 0x49u8 && b[2] == 0x46u8 && b[3] == 0x46u8 && b[8]
        == 0x57u8 && b[9] == 0x45u8 && b[10] == 0x42u8 && b[11] == 0x50u8
}

/// The bytes start with the BMP signature.
pub open spec fn spec_is_bmp(b: Seq<u8>) -> bool {
    b.len() >= 2 && b[0] == 0x42u8 && b[1] == 0x4du8
}

/// The suffix after the last occurrence of `sep`, when `sep` occurs.
pub open spec fn spec_after_last(s: Seq<char>, sep: char) -> Option<Seq<char>>
    decreases s.len(),
{
    if s.len() == 0 {
        None
    } else if s.last() == sep {
        Some(Seq::empty())
    } else {
        match spec_after_last(s.drop_last(), sep) {
            Some(p) => Some(p.push(s.last())),
            None => None,
        }
    }
}

/// The extension of a filename, lower-cased: what follows the last dot of
/// the last path component, unless that dot is the component's first
/// character; empty when there is no extension.
pub open spec fn spec_ext_lower(path: Seq<char>) -> Seq<char> {
    let name = spec_split_path(path).last();
    match spec_after_last(name, '.') {
        Some(e) => if e.len() + 1 < name.len() {
            e.map_values(|c: char| spec_lower(c))
        } else {
            Seq::empty()
        },
        None => Seq::empty(),
    }
}

/// The MIME type guessed for an image: magic bytes first, the filename's
/// extension as a fallback, a generic byte stream when neither is known.
pub open spec fn spec_guess_mime(path: Seq<char>, bytes: Seq<u8>) -> Seq<char> {
    if spec_is_png(bytes) {
        "image/png"@
    } else if spec_is_jpeg(bytes) {
        "image/jpeg"@
    } else if spec_is_webp(bytes) {
        "image/webp"@
    } else if spec_is_bmp(bytes) {
        "image/bmp"@
    } else {
        let ext = spec_ext_lower(path);
        if ext == "jpg"@ || ext == "jpeg"@ {
            "image/jpeg"@
        } else if ext == "png"@ {
            "image/png"@
        } else if ext == "webp"@ {
            "image/webp"@
        } else if ext == "bmp"@ {
            "image/bmp"@
        } else {
            "application/octet-stream"@
        }
    }
}

proof fn lemma_after_last_at(s: Seq<char>, sep: char, k: int)
    requires
        0 <= k < s.len(),
        s[k] == sep,
        forall|l: int| k < l < s.len() ==> s[l] != sep,
    ensures
        spec_after_last(s, sep) == Some(s.skip(k + 1)),
    decreases s.len(),
{
    if k == s.len() - 1 {
        assert(s.skip(k + 1) =~= Seq::<char>::empty());
    } else {
        lemma_after_last_at(s.drop_last(), sep, k);
        assert(s.drop_last()[k] == s[k]);
        assert(s.drop_last().skip(k + 1).push(s.last()) =~= s.skip(k + 1));
    }
}

proof fn lemma_after_last_none(s: Seq<char>, sep: char)
    requires
        forall|l: int| 0 <= l < s.len() ==> s[l] != sep,
    ensures
        spec_after_last(s, sep) is None,
    decreases s.len(),
{
    if s.len() > 0 {
        lemma_after_last_none(s.drop_last(), sep);
    }
}

/// The extension of a path's filename, lower-cased; empty when there is
/// none.
pub fn ext_lower(path: &str) -> (r: Vec<char>)
    ensures
        r@ == spec_ext_lower(path@),
{
    let v = chars_of(path);
    let parts = split_path(&v);
    proof {
        lemma_split_path_nonempty(v@);
    }
    let name = &parts[parts.len() - 1];
    assert(name@ == spec_split_path(v@).last());
    let n = name.len();
    let mut k: usize = n;
    while k > 0 && name[k - 1] != '.'
        invariant
            n == name@.len(),
            k <= n,
            forall|l: int| k <= l < n ==> name@[l] != '.',
        decreases k,
    {
        k = k - 1;
    }
    if k == 0 {
        // no dot at all
        proof {
            lemma_after_last_none(name@, '.');
        }
        return Vec::new();
    }
    // the dot sits at k - 1
    proof {
        lemma_after_last_at(name@, '.', k - 1 as int);
    }
    if k == 1 {
        // the dot is the component's first character: no extension
        assert(spec_after_last(name@, '.') matches Some(e) && e.len() + 1 == name@.len());
        return Vec::new();
    }
    let mut out: Vec<char> = Vec::new();
    let mut i: usize = k;
    while i < n
        invariant
            n == name@.len(),
            k <= i <= n,
            out@ == name@.subrange(k as int, i as int).map_values(|c: char| spec_lower(c)),
        decreases n - i,
    {
        out.push(lower(name[i]));
        assert(out@ =~= name@.subrange(k as int, i + 1 as int).map_values(
            |c: char| spec_lower(c),
        ));
        i = i + 1;
    }
    proof {
        assert(name@.skip(k as int) =~= name@.subrange(k as int, n as int));
        assert(spec_after_last(name@, '.') matches Some(e) && e.len() + 1 < name@.len());
    }
    out
}

/// Guesses the MIME type an image is served under: known magic bytes win,
/// then the filename's extension, then a generic byte stream.
pub fn guess_mime(path: &str, bytes: &[u8]) -> (r: &'static str)
    ensures
        r@ == spec_guess_mime(path@, bytes@),
{
    let n = bytes.len();
    if n >= 8 && bytes[0] == 0x89 && bytes[1] == 0x50 && bytes[2] == 0x4e && bytes[3] == 0x47
        && bytes[4] == 0x0d && bytes[5] == 0x0a && bytes[6] == 0x1a && bytes[7] == 0x0a {
        return "image/png";
    }
    if n >= 3 && bytes[0] == 0xff && bytes[1] == 0xd8 && bytes[2] == 0xff {
        return "image/jpeg";
    }
    if n >= 12 && bytes[0] == 0x52 && bytes[1] == 0x49 && bytes[2] == 0x46 && bytes[3] == 0x46
        && bytes[8] == 0x57 && bytes[9] == 0x45 && bytes[10] == 0x42 && bytes[11] == 0x50 {
        return "image/webp";
    }
    if n >= 2 && bytes[0] == 0x42 && bytes[1] == 0x4d {
        return "image/bmp";
    }
    let ext = ext_lower(path);
    let jpg = chars_of("jpg");
    let jpeg = chars_of("jpeg");
    let png = chars_of("png");
    let webp = chars_of("webp");
    let bmp = chars_of("bmp");
    proof {
        reveal_strlit("jpg");
        reveal_strlit("jpeg");
        reveal_strlit("png");
        reveal_strlit("webp");
        reveal_strlit("bmp");
    }
    if chars_eq(&ext, &jpg) || chars_eq(&ext, &jpeg) {
        "image/jpeg"
    } else if chars_eq(&ext, &png) {
        "image/png"
    } else if chars_eq(&ext, &webp) {
        "image/webp"
    } else if chars_eq(&ext, &bmp) {
        "image/bmp"
    } else {
        "application/octet-stream"
    }
}

/// The extensions a local directory walk treats as product images.
pub open spec fn spec_is_indexable_image(path: Seq<char>) -> bool {
    let ext = spec_ext_lower(path);
    ext == "jpg"@ || ext == "jpeg"@ || ext == "png"@ || ext == "webp"@ || ext == "bmp"@
}

/// Whether a walked file is taken up by the image-indexing pass.
pub fn is_indexable_image(path: &str) -> (r: bool)
    ensures
        r == spec_is_indexable_image(path@),
{
    let ext = ext_lower(path);
    let jpg = chars_of("jpg");
    let jpeg = chars_of("jpeg");
    let png = chars_of("png");
    let webp = chars_of("webp");
    let bmp = chars_of("bmp");
    proof {
        reveal_strlit("jpg");
        reveal_strlit("jpeg");
        reveal_strlit("png");
        reveal_strlit("webp");
        reveal_strlit("bmp");
    }
    chars_eq(&ext, &jpg) || chars_eq(&ext, &jpeg) || chars_eq(&ext, &png) || chars_eq(&ext, &webp)
        || chars_eq(&ext, &bmp)
}

/// The extensions the staging-image listing accepts.
pub open spec fn spec_is_listable_image(path: Seq<char>) -> bool {
    spec_is_indexable_image(path) || spec_ext_lower(path) == "gif"@
}

/// Whether a walked file shows up in the staging-image listing.
pub fn is_listable_image(path: &str) -> (r: bool)
    ensures
        r == spec_is_listable_image(path@),
{
    if is_indexable_image(path) {
        return true;
    }
    let ext = ext_lower(path);
    let gif = chars_of("gif");
    proof {
        reveal_strlit("gif");
    }
    chars_eq(&ext, &gif)
}

} // verus!
