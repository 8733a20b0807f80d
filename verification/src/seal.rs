//! Link tokens, their keyed hashes, and the SHA-256 receipt seal.

use vstd::prelude::*;
use vstd::string::*;
use vstd::utf8::{encode_utf8, is_ascii_chars};
use base64::Engine;
use hmac::Mac;
use rand::RngCore;
use sha2::Digest;
use crate::error::AppError;
use crate::text::chars_of;

verus! {

broadcast use vstd::string::group_string_axioms;

/// The SHA-256 digest of `data` (FIPS 180-4), as `sha2::Sha256::digest`
/// computes it.
pub uninterp spec fn sha256(data: Seq<u8>) -> Seq<u8>;

/// HMAC-SHA-256 (RFC 2104) of `message` under `key`, as
/// `hmac::Hmac::<sha2::Sha256>` computes it.
pub uninterp spec fn hmac_sha256(key: Seq<u8>, message: Seq<u8>) -> Seq<u8>;

/// The URL-safe base64 encoding of `data` without padding (RFC 4648 §5), as
/// `base64::engine::general_purpose::URL_SAFE_NO_PAD.encode` writes it.
pub uninterp spec fn base64_url(data: Seq<u8>) -> Seq<char>;

/// Length of unpadded base64 text for `n` bytes.
pub open spec fn base64_len(n: nat) -> nat {
    if n % 3 == 0 {
        n / 3 * 4
    } else if n % 3 == 1 {
        n / 3 * 4 + 2
    } else {
        n / 3 * 4 + 3
    }
}

/// A character of the URL-safe base64 alphabet.
pub open spec fn url_safe_char(c: char) -> bool {
    ||| 'A' <= c <= 'Z'
    ||| 'a' <= c <= 'z'
    ||| '0' <= c <= '9'
    ||| c == '-'
    ||| c == '_'
}

/// `sha2::Sha256::digest`: the result is the named digest of the bytes and
/// has 32 bytes.
#[verifier::external_body]
fn sha256_digest(data: &[u8]) -> (r: Vec<u8>)
    ensures
        r@ == sha256(data@),
        r@.len() == 32,
{
    sha2::Sha256::digest(data).to_vec()
}

/// `Hmac::<Sha256>::new_from_slice`, `update` and `finalize`: the result is
/// the named tag of key and message and has 32 bytes. `new_from_slice`
/// accepts a key of any length (longer keys are hashed first), so the
/// `expect` never fires.
#[verifier::external_body]
fn hmac_sha256_tag(key: &[u8], message: &[u8]) -> (r: Vec<u8>)
    ensures
        r@ == hmac_sha256(key@, message@),
        r@.len() == 32,
{
    let mut mac = hmac::Hmac::<sha2::Sha256>::new_from_slice(key).expect("HMAC supports any key size");
    mac.update(message);
    mac.finalize().into_bytes().to_vec()
}

/// `URL_SAFE_NO_PAD.encode`: the result is the named encoding, has the
/// unpadded length and only URL-safe alphabet characters. `encode` panics
/// only when the output length overflows `usize`, which `requires` leaves out.
#[verifier::external_body]
fn base64_url_encode(data: &[u8]) -> (r: String)
    requires
        base64_len(data@.len()) <= usize::MAX,
    ensures
        r@ == base64_url(data@),
        r@.len() == base64_len(data@.len()),
        forall|i: int| 0 <= i < r@.len() ==> url_safe_char(#[trigger] r@[i]),
{
    base64::engine::general_purpose::URL_SAFE_NO_PAD.encode(data)
}

/// `rand::rngs::OsRng.fill_bytes` on a fresh buffer of `n` bytes. Nothing is
/// stated of the bytes but their number: they come from the operating
/// system's entropy source; `fill_bytes` panics if that source fails.
#[verifier::external_body]
fn random_bytes(n: usize) -> (r: Vec<u8>)
    ensures
        r@.len() == n,
{
    let mut bytes = vec![0u8; n];
    rand::rngs::OsRng.fill_bytes(&mut bytes);
    bytes
}

/// A link token as the service hands them out and accepts them: 32 bytes,
/// each an ASCII letter or digit, `-` or `_`.
pub open spec fn token_shape(s: Seq<char>) -> bool {
    &&& encode_utf8(s).len() == 32
    &&& forall|i: int| 0 <= i < s.len() ==> url_safe_char(#[trigger] s[i])
}

/// A fresh unguessable link token: 24 random bytes in URL-safe base64.
pub fn token() -> (t: String)
    ensures
        token_shape(t@),
        exists|b: Seq<u8>| b.len() == 24 && t@ == base64_url(b),
{
    let bytes = random_bytes(24);
    let t = base64_url_encode(bytes.as_slice());
    assert(is_ascii_chars(t@)) by {
        assert forall|i: int| 0 <= i < t@.len() implies '\0' <= #[trigger] t@[i] <= '\u{7f}' by {
            assert(url_safe_char(t@[i]));
        }
    }
    proof {
        vstd::utf8::is_ascii_chars_encode_utf8(t@);
    }
    t
}

/// Accepts a value only if it has the shape of a link token; anything else
/// is answered as an unknown link.
pub fn valid_token(value: &str) -> (r: Result<(), AppError>)
    ensures
        r is Ok <==> token_shape(value@),
        r matches Err(e) ==> e is NotFound,
{
    if value.as_bytes().len() != 32 {
        return Err(AppError::NotFound);
    }
    let v = chars_of(value);
    let mut i: usize = 0;
    while i < v.len()
        invariant
            v@ == value@,
            i <= v@.len(),
            forall|j: int| 0 <= j < i ==> url_safe_char(#[trigger] v@[j]),
        decreases v@.len() - i,
    {
        let c = v[i];
        if !(('A' <= c && c <= 'Z') || ('a' <= c && c <= 'z') || ('0' <= c && c <= '9') || c == '-'
            || c == '_') {
            return Err(AppError::NotFound);
        }
        i = i + 1;
    }
    Ok(())
}

/// The keyed hash under which a token is stored and looked up.
pub open spec fn token_digest(secret: Seq<u8>, value: Seq<char>) -> Seq<char> {
    base64_url(hmac_sha256(secret, encode_utf8(value)))
}

/// The stored form of a token: HMAC-SHA-256 under the instance secret, in
/// URL-safe base64 (43 characters).
pub fn token_hash(secret: &[u8], value: &str) -> (h: String)
    ensures
        h@ == token_digest(secret@, value@),
        h@.len() == 43,
{
    let tag = hmac_sha256_tag(secret, value.as_bytes());
    base64_url_encode(tag.as_slice())
}

/// Resolves a link token to its storage key: an ill-formed token is an
/// unknown link, a well-formed one is hashed under the secret.
pub fn token_key(secret: &[u8], value: &str) -> (r: Result<String, AppError>)
    ensures
        r is Ok <==> token_shape(value@),
        r matches Ok(h) ==> h@ == token_digest(secret@, value@),
        r matches Err(e) ==> e is NotFound,
{
    valid_token(value)?;
    Ok(token_hash(secret, value))
}

/// A lower-case hexadecimal digit.
pub open spec fn hex_digit(d: int) -> char {
    if d < 10 {
        (('0' as int) + d) as char
    } else {
        (('a' as int) + d - 10) as char
    }
}

/// Lower-case hexadecimal text of `bytes`, two digits per byte, high first.
pub open spec fn hex_lower(bytes: Seq<u8>) -> Seq<char>
    decreases bytes.len(),
{
    if bytes.len() == 0 {
        Seq::empty()
    } else {
        hex_lower(bytes.drop_last()) + seq![
            hex_digit(bytes.last() as int / 16),
            hex_digit(bytes.last() as int % 16),
        ]
    }
}

fn hex_char(d: u8) -> (c: char)
    requires
        d < 16,
    ensures
        c == hex_digit(d as int),
{
    if d < 10 {
        (48u8 + d) as char
    } else {
        (87u8 + d) as char
    }
}

/// Lower-case hexadecimal text of `bytes`.
pub fn to_hex(bytes: &[u8]) -> (s: String)
    ensures
        s@ == hex_lower(bytes@),
        s@.len() == 2 * bytes@.len(),
{
    let mut s = String::new();
    let mut i: usize = 0;
    while i < bytes.len()
        invariant
            i <= bytes@.len(),
            s@ == hex_lower(bytes@.subrange(0, i as int)),
            s@.len() == 2 * i,
        decreases bytes@.len() - i,
    {
        let b = bytes[i];
        crate::text::push_char(&mut s, hex_char(b / 16));
        crate::text::push_char(&mut s, hex_char(b % 16));
        assert(bytes@.subrange(0, i + 1).drop_last() =~= bytes@.subrange(0, i as int));
        i = i + 1;
    }
    assert(bytes@.subrange(0, bytes@.len() as int) =~= bytes@);
    s
}

/// The SHA-256 seal of `text`: the digest of its UTF-8 bytes in lower-case
/// hexadecimal.
pub open spec fn seal_of(text: Seq<char>) -> Seq<char> {
    hex_lower(sha256(encode_utf8(text)))
}

/// Seals a text: 64 lower-case hexadecimal digits of its SHA-256 digest.
pub fn seal(text: &str) -> (h: String)
    ensures
        h@ == seal_of(text@),
        h@.len() == 64,
{
    let digest = sha256_digest(text.as_bytes());
    to_hex(digest.as_slice())
}

} // verus!
