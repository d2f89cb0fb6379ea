//! Manifest fingerprinting and image encoding.
//!
//! A manifest's fingerprint is the SHA-256 of its raw bytes, written as
//! lower-case hex; it detects any byte-level change without diffing the
//! parsed structure.  Image bytes served to the interface are carried as
//! base64 data URLs.

use vstd::prelude::*;

use base64::Engine;
use sha2::Digest;

use vstd::string::StringSliceAdditionalSpecFns;

use crate::text::push_char;

verus! {

/// The SHA-256 digest of a byte sequence.
pub uninterp spec fn sha256_of(data: Seq<u8>) -> Seq<u8>;

/// Relies on `sha2::Sha256` (through `digest::Digest::digest`): a 32-byte
/// digest that depends on the input bytes alone.
#[verifier::external_body]
fn sha256(data: &[u8]) -> (r: Vec<u8>)
    ensures
        r@ == sha256_of(data@),
        r@.len() == 32,
{
    sha2::Sha256::digest(data).to_vec()
}

pub open spec fn spec_hex_digit(v: u8) -> char
    recommends
        v < 16,
{
    seq!['0', '1', '2', '3', '4', '5', '6', '7', '8', '9', 'a', 'b', 'c', 'd', 'e', 'f'][v as int]
}

/// The lower-case hex encoding of a byte sequence: two digits per byte,
/// high nibble first.
pub open spec fn spec_hex_lower(data: Seq<u8>) -> Seq<char>
    decreases data.len(),
{
    if data.len() == 0 {
        Seq::empty()
    } else {
        seq![spec_hex_digit(data.first() / 16), spec_hex_digit(data.first() % 16)]
            + spec_hex_lower(data.drop_first())
    }
}

fn hex_digit(v: u8) -> (r: char)
    requires
        v < 16,
    ensures
        r == spec_hex_digit(v),
{
    match v {
        0 => '0',
        1 => '1',
        2 => '2',
        3 => '3',
        4 => '4',
        5 => '5',
        6 => '6',
        7 => '7',
        8 => '8',
        9 => '9',
        10 => 'a',
        11 => 'b',
        12 => 'c',
        13 => 'd',
        14 => 'e',
        _ => 'f',
    }
}

/// Writes a byte sequence as lower-case hex.
pub fn hex_lower(data: &Vec<u8>) -> (r: String)
    ensures
        r@ == spec_hex_lower(data@),
{
    let mut r = String::new();
    let n = data.len();
    assert(data@.skip(0) =~= data@);
    for i in 0..n
        invariant
            n == data@.len(),
            spec_hex_lower(data@) == r@ + spec_hex_lower(data@.skip(i as int)),
            r@.len() == 2 * i,
    {
        let b = data[i];
        assert(data@.skip(i as int).first() == data@[i as int]);
        push_char(&mut r, hex_digit(b / 16));
        push_char(&mut r, hex_digit(b % 16));
        assert(data@.skip(i as int).drop_first() =~= data@.skip(i + 1));
    }
    assert(spec_hex_lower(data@.skip(n as int)) =~= Seq::<char>::empty());
    assert(r@ =~= spec_hex_lower(data@));
    r
}

/// The fingerprint of a document: lower-case hex of its SHA-256.
pub open spec fn spec_fingerprint(data: Seq<u8>) -> Seq<char> {
    spec_hex_lower(sha256_of(data))
}

/// Fingerprints a raw document: SHA-256 over the bytes, written as 64
/// lower-case hex digits.
pub fn fingerprint(data: &[u8]) -> (r: String)
    ensures
        r@ == spec_fingerprint(data@),
        r@.len() == 64,
{
    let d = sha256(data);
    proof {
        lemma_hex_lower_len(d@);
    }
    hex_lower(&d)
}

proof fn lemma_hex_lower_len(data: Seq<u8>)
    ensures
        spec_hex_lower(data).len() == 2 * data.len(),
    decreases data.len(),
{
    if data.len() > 0 {
        lemma_hex_lower_len(data.drop_first());
    }
}

/// Fingerprints a document given as text, over its UTF-8 bytes.
pub fn hash_str(txt: &str) -> (r: String)
    ensures
        r@ == spec_fingerprint(txt.spec_bytes()),
        r@.len() == 64,
{
    fingerprint(txt.as_bytes())
}

/// The standard base64 encoding of a byte sequence.
pub uninterp spec fn base64_of(data: Seq<u8>) -> Seq<char>;

/// Relies on `base64::engine::general_purpose::STANDARD` (through
/// `base64::Engine::encode`): the padded standard-alphabet encoding, which
/// depends on the input bytes alone.
#[verifier::external_body]
fn base64_standard(data: &[u8]) -> (r: String)
    ensures
        r@ == base64_of(data@),
{
    base64::engine::general_purpose::STANDARD.encode(data)
}

/// A base64 data URL for the given payload.
pub open spec fn spec_data_url(mime: Seq<char>, data: Seq<u8>) -> Seq<char> {
    "data:"@ + mime + ";base64,"@ + base64_of(data)
}

/// Builds the `data:` URL under which image bytes are handed to the
/// interface.
pub fn data_url(mime: &str, data: &[u8]) -> (r: String)
    ensures
        r@ == spec_data_url(mime@, data@),
{
    let mut r = String::new();
    r.append("data:");
    r.append(mime);
    r.append(";base64,");
    let b = base64_standard(data);
    r.append(b.as_str());
    assert(r@ =~= spec_data_url(mime@, data@));
    r
}

} // verus!
