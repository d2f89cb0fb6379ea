//! The encrypted image container: a `CIMG` header followed by a PBKDF2 salt,
//! an AES-256-GCM nonce, and the ciphertext.  Parsing the container is the
//! library's own logic; key derivation and the authenticated decryption are
//! the crypto crates' work, consumed through trusted wrappers.

use vstd::prelude::*;

use aes_gcm::aead::Aead;
use aes_gcm::KeyInit;
use vstd::string::StringSliceAdditionalSpecFns;

use crate::codes::{spec_trim, trim_chars};
use crate::text::chars_of;

verus! {

/// Rounds of PBKDF2-HMAC-SHA-256 the key derivation runs.
pub const KDF_ITERS: u32 = 200000;

/// The built-in password tried when none is configured, so a missing key
/// file is distinguishable from a wrong key.
pub const TEST_FALLBACK_KEY: &'static str = "@Fb264e0d9efg";

/// Why reading an encrypted image failed.
#[derive(Debug, Clone, Copy, PartialEq, Eq, Structural)]
pub enum DecryptError {
    /// The data is shorter than the fixed header.
    TooShort,
    /// The magic bytes or the version byte do not match.
    UnknownFormat,
    /// The authenticated decryption refused the ciphertext.
    DecryptFailed,
}

impl DecryptError {
    /// A human-readable cause.
    pub fn message(&self) -> (r: &'static str)
        ensures
            self is TooShort ==> r@ == "encrypted image too short"@,
            self is UnknownFormat ==> r@ == "unknown image container format"@,
            self is DecryptFailed ==> r@ == "decryption failed"@,
    {
        match self {
            DecryptError::TooShort => "encrypted image too short",
            DecryptError::UnknownFormat => "unknown image container format",
            DecryptError::DecryptFailed => "decryption failed",
        }
    }
}

/// The parts of a parsed container.
#[derive(Debug, Clone)]
pub struct ImageContainer {
    pub salt: Vec<u8>,
    pub nonce: Vec<u8>,
    pub ciphertext: Vec<u8>,
}

/// The data carries the `CIMG` magic and the supported version byte.
pub open spec fn spec_magic_ok(data: Seq<u8>) -> bool {
    data.len() >= 5 && data[0] == 0x43u8 && data[1] == 0x49u8 && data[2] == 0x4du8 && data[3]
        == 0x47u8 && data[4] == 0x01u8
}

/// The header: 4 magic bytes, 1 version byte, 16 salt bytes, 12 nonce
/// bytes.
pub const CONTAINER_HEADER_LEN: usize = 33;

/// Splits an encrypted image into salt, nonce and ciphertext.  The data is
/// refused when it is shorter than the header or does not carry the magic
/// and version.
pub fn parse_container(data: &[u8]) -> (r: Result<ImageContainer, DecryptError>)
    ensures
        (r == Err::<ImageContainer, DecryptError>(DecryptError::TooShort)) <==> data@.len() < 33,
        (r == Err::<ImageContainer, DecryptError>(DecryptError::UnknownFormat)) <==> (data@.len()
            >= 33 && !spec_magic_ok(data@)),
        r matches Ok(c) ==> {
            &&& data@.len() >= 33
            &&& spec_magic_ok(data@)
            &&& c.salt@ == data@.subrange(5, 21)
            &&& c.nonce@ == data@.subrange(21, 33)
            &&& c.ciphertext@ == data@.skip(33)
        },
        (data@.len() >= 33 && spec_magic_ok(data@)) ==> r is Ok,
{
    let n = data.len();
    if n < 33 {
        return Err(DecryptError::TooShort);
    }
    if !(data[0] == 0x43 && data[1] == 0x49 && data[2] == 0x4d && data[3] == 0x47 && data[4] == 0x01)
    {
        return Err(DecryptError::UnknownFormat);
    }
    let mut salt: Vec<u8> = Vec::new();
    for i in 5..21
        invariant
            n == data@.len() && n >= 33,
            salt@ == data@.subrange(5, i as int),
    {
        salt.push(data[i]);
        assert(salt@ =~= data@.subrange(5, i + 1 as int));
    }
    let mut nonce: Vec<u8> = Vec::new();
    for i in 21..33
        invariant
            n == data@.len() && n >= 33,
            nonce@ == data@.subrange(21, i as int),
    {
        nonce.push(data[i]);
        assert(nonce@ =~= data@.subrange(21, i + 1 as int));
    }
    let mut ciphertext: Vec<u8> = Vec::new();
    let mut i: usize = 33;
    while i < n
        invariant
            n == data@.len() && n >= 33,
            33 <= i <= n,
            ciphertext@ == data@.subrange(33, i as int),
        decreases n - i,
    {
        ciphertext.push(data[i]);
        assert(ciphertext@ =~= data@.subrange(33, i + 1 as int));
        i = i + 1;
    }
    assert(ciphertext@ =~= data@.skip(33));
    Ok(ImageContainer { salt, nonce, ciphertext })
}

/// The key PBKDF2-HMAC-SHA-256 derives from a password and salt.
pub uninterp spec fn pbkdf2_sha256_of(password: Seq<u8>, salt: Seq<u8>, rounds: u32) -> Seq<u8>;

/// Relies on `pbkdf2::pbkdf2_hmac` with SHA-256: a 32-byte key that depends
/// on the password, salt and round count alone.
#[verifier::external_body]
fn derive_key(password: &[u8], salt: &[u8], rounds: u32) -> (r: Vec<u8>)
    ensures
        r@ == pbkdf2_sha256_of(password@, salt@, rounds),
        r@.len() == 32,
{
    let mut key = [0u8; 32];
    pbkdf2::pbkdf2_hmac::<sha2::Sha256>(password, salt, rounds, &mut key);
    key.to_vec()
}

/// What AES-256-GCM decryption yields for a key, nonce and ciphertext:
/// the plaintext, or nothing when the tag does not verify.
pub uninterp spec fn aes256gcm_open(key: Seq<u8>, nonce: Seq<u8>, ct: Seq<u8>) -> Option<Seq<u8>>;

/// Relies on `aes_gcm::Aes256Gcm` — `KeyInit::new_from_slice` on a 32-byte
/// key and `Aead::decrypt` — whose result depends on the key, nonce and
/// ciphertext alone.
#[verifier::external_body]
fn aes256gcm_decrypt(key: &[u8], nonce: &[u8], ct: &[u8]) -> (r: Option<Vec<u8>>)
    requires
        key@.len() == 32,
        nonce@.len() == 12,
    ensures
        r matches Some(p) ==> aes256gcm_open(key@, nonce@, ct@) == Some(p@),
        r is None ==> aes256gcm_open(key@, nonce@, ct@) is None,
{
    let cipher = match aes_gcm::Aes256Gcm::new_from_slice(key) {
        Ok(c) => c,
        Err(_) => return None,
    };
    let nonce: &aes_gcm::Nonce<aes_gcm::aead::consts::U12> = match nonce.try_into() {
        Ok(n) => n,
        Err(_) => return None,
    };
    cipher.decrypt(nonce, ct).ok()
}

/// The password bytes the key is derived from: the configured password,
/// or the built-in fallback when the configured one is blank.
pub open spec fn spec_effective_password(p: &str) -> Seq<u8> {
    if spec_trim(p@).len() == 0 {
        TEST_FALLBACK_KEY.spec_bytes()
    } else {
        p.spec_bytes()
    }
}

/// Decrypts an encrypted image: parses the container, derives the key from
/// the password (or the built-in fallback when the password is blank), and
/// opens the ciphertext; a refused tag is reported, not unwrapped.
pub fn decrypt_image(data: &[u8], password: &str) -> (r: Result<Vec<u8>, DecryptError>)
    ensures
        (r == Err::<Vec<u8>, DecryptError>(DecryptError::TooShort)) <==> data@.len() < 33,
        (r == Err::<Vec<u8>, DecryptError>(DecryptError::UnknownFormat)) <==> (data@.len() >= 33
            && !spec_magic_ok(data@)),
        (data@.len() >= 33 && spec_magic_ok(data@)) ==> {
            let key = pbkdf2_sha256_of(
                spec_effective_password(password),
                data@.subrange(5, 21),
                KDF_ITERS,
            );
            match aes256gcm_open(key, data@.subrange(21, 33), data@.skip(33)) {
                Some(p) => r matches Ok(pt) && pt@ == p,
                None => r == Err::<Vec<u8>, DecryptError>(DecryptError::DecryptFailed),
            }
        },
{
    let parts = match parse_container(data) {
        Ok(p) => p,
        Err(e) => {
            return Err(e);
        },
    };
    let pv = chars_of(password);
    let trimmed = trim_chars(&pv);
    let pw_bytes: &[u8] = if trimmed.len() == 0 {
        TEST_FALLBACK_KEY.as_bytes()
    } else {
        password.as_bytes()
    };
    let key = derive_key(pw_bytes, parts.salt.as_slice(), KDF_ITERS);
    match aes256gcm_decrypt(key.as_slice(), parts.nonce.as_slice(), parts.ciphertext.as_slice()) {
        Some(p) => Ok(p),
        None => Err(DecryptError::DecryptFailed),
    }
}

} // verus!
