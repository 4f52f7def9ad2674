//! GitHub webhook signatures: HMAC-SHA256 over the request body, written as
//! `sha256=` and the tag in lowercase hexadecimal.

use hmac::Mac;
use vstd::prelude::*;
use vstd::string::StringExecFns;
use vstd::utf8::encode_utf8;

verus! {

/// The value of a hexadecimal digit, upper or lower case; `None` for any
/// other character.
pub open spec fn hex_value(c: char) -> Option<int> {
    if '0' <= c <= '9' {
        Some(c as int - '0' as int)
    } else if 'a' <= c <= 'f' {
        Some(c as int - 'a' as int + 10)
    } else if 'A' <= c <= 'F' {
        Some(c as int - 'A' as int + 10)
    } else {
        None
    }
}

/// The bytes written in hexadecimal by `s`, two digits per byte, high digit
/// first; `None` when `s` has an odd number of characters or a character
/// that is no hexadecimal digit.
pub open spec fn hex_decoded(s: Seq<char>) -> Option<Seq<u8>>
    decreases s.len(),
{
    if s.len() == 0 {
        Some(seq![])
    } else if s.len() == 1 {
        None
    } else {
        match (hex_value(s[0]), hex_value(s[1]), hex_decoded(s.skip(2))) {
            (Some(h), Some(l), Some(rest)) => Some(seq![(h * 16 + l) as u8] + rest),
            _ => None,
        }
    }
}

/// The lowercase hexadecimal digit of `n`, for `0 <= n < 16`.
pub open spec fn hex_digit(n: int) -> char {
    if n < 10 {
        (('0' as int) + n) as char
    } else {
        (('a' as int) + n - 10) as char
    }
}

/// `b` in lowercase hexadecimal, two digits per byte, high digit first.
pub open spec fn hex_encoded(b: Seq<u8>) -> Seq<char>
    decreases b.len(),
{
    if b.len() == 0 {
        seq![]
    } else {
        seq![hex_digit(b[0] as int / 16), hex_digit(b[0] as int % 16)] + hex_encoded(b.skip(1))
    }
}

proof fn lemma_hex_digit_value(n: int)
    requires
        0 <= n < 16,
    ensures
        hex_value(hex_digit(n)) == Some(n),
{
}

/// Writing bytes in hexadecimal and reading them back gives the bytes.
pub proof fn law_hex_round_trip(b: Seq<u8>)
    ensures
        hex_decoded(hex_encoded(b)) == Some(b),
    decreases b.len(),
{
    if b.len() > 0 {
        law_hex_round_trip(b.skip(1));
        let e = hex_encoded(b);
        lemma_hex_digit_value(b[0] as int / 16);
        lemma_hex_digit_value(b[0] as int % 16);
        assert(e.skip(2) =~= hex_encoded(b.skip(1)));
        assert(((b[0] as int / 16) * 16 + b[0] as int % 16) as u8 == b[0]);
        assert(seq![b[0]] + b.skip(1) =~= b);
    }
}

/// Decodes hexadecimal text with `hex::decode`; `None` where the crate
/// reports an error (odd length, or a character that is no digit).
#[verifier::external_body]
pub(crate) fn hex_decode(s: &str) -> (r: Option<Vec<u8>>)
    ensures
        match r {
            Some(v) => hex_decoded(s@) == Some(v@),
            None => hex_decoded(s@) is None,
        },
{
    hex::decode(s).ok()
}

/// Writes bytes in lowercase hexadecimal with `hex::encode`.
#[verifier::external_body]
fn hex_encode(b: &[u8]) -> (r: String)
    ensures
        r@ == hex_encoded(b@),
{
    hex::encode(b)
}

/// The HMAC-SHA256 tag of `msg` under `key`, as the `hmac` and `sha2`
/// crates compute it.
pub uninterp spec fn hmac_sha256_of(key: Seq<u8>, msg: Seq<u8>) -> Seq<u8>;

/// Computes the HMAC-SHA256 tag of `msg` under `key` with the `hmac` crate
/// (`Hmac::<Sha256>::new_from_slice`, `update`, `finalize`). HMAC takes
/// keys of any length, so the key is never refused; the tag has the 32
/// bytes of a SHA-256 output.
#[verifier::external_body]
fn hmac_sha256(key: &[u8], msg: &[u8]) -> (tag: Vec<u8>)
    ensures
        tag@ == hmac_sha256_of(key@, msg@),
        tag@.len() == 32,
{
    let mut mac = <hmac::Hmac<sha2::Sha256> as Mac>::new_from_slice(key).unwrap();
    mac.update(msg);
    mac.finalize().into_bytes().to_vec()
}

/// Checks a tag with the `hmac` crate's `verify_slice`, which accepts
/// exactly the HMAC-SHA256 tag of `msg` under `key`.
#[verifier::external_body]
fn hmac_sha256_verify(key: &[u8], msg: &[u8], tag: &[u8]) -> (ok: bool)
    ensures
        ok == (tag@ == hmac_sha256_of(key@, msg@)),
{
    let mut mac = <hmac::Hmac<sha2::Sha256> as Mac>::new_from_slice(key).unwrap();
    mac.update(msg);
    mac.verify_slice(tag).is_ok()
}

/// The signature header value GitHub sends for `body` under `secret`.
pub open spec fn signature_header(secret: Seq<char>, body: Seq<u8>) -> Seq<char> {
    "sha256="@ + hex_encoded(hmac_sha256_of(encode_utf8(secret), body))
}

/// Whether `tag` is the HMAC-SHA256 tag of `body` under `secret`.
pub fn github_verify_signature(secret: &str, body: &[u8], tag: &[u8]) -> (ok: bool)
    ensures
        ok == (tag@ == hmac_sha256_of(encode_utf8(secret@), body@)),
{
    hmac_sha256_verify(secret.as_bytes(), body, tag)
}

/// The `X-Hub-Signature-256` header value for `body` under `secret`.
pub fn github_signature_256(secret: &str, body: &[u8]) -> (sig: String)
    ensures
        sig@ == signature_header(secret@, body@),
{
    let tag = hmac_sha256(secret.as_bytes(), body);
    let checked = github_verify_signature(secret, body, tag.as_slice());
    assert(checked);
    let mut sig = "sha256=".to_owned();
    let hex = hex_encode(tag.as_slice());
    sig.append(hex.as_str());
    sig
}

} // verus!
