//! SHA-256 digests and their lower-case hexadecimal text.

use sha2::Digest;
use vstd::prelude::*;
use vstd::string::StringExecFns;
use vstd::utf8::encode_utf8;

verus! {

/// The lower-case hexadecimal digit for a value below sixteen.
pub open spec fn hex_digit(n: int) -> char
    recommends
        0 <= n < 16,
{
    if n < 10 {
        (('0' as u8) + n) as u8 as char
    } else {
        (('a' as u8) + (n - 10)) as u8 as char
    }
}

/// Two digits for each byte, the high four bits first.
pub open spec fn hex_lower(bytes: Seq<u8>) -> Seq<char> {
    Seq::new(
        2 * bytes.len(),
        |i: int|
            if i % 2 == 0 {
                hex_digit(bytes[i / 2] as int / 16)
            } else {
                hex_digit(bytes[i / 2] as int % 16)
            },
    )
}

/// Whether a character is one of `0123456789abcdef`.
pub open spec fn is_hex_char(c: char) -> bool {
    ('0' <= c && c <= '9') || ('a' <= c && c <= 'f')
}

/// The SHA-256 digest of a byte string.
pub uninterp spec fn sha256(data: Seq<u8>) -> Seq<u8>;

/// The hexadecimal text of the SHA-256 digest of a text's UTF-8 bytes.
pub open spec fn sha256_hex_spec(s: Seq<char>) -> Seq<char> {
    hex_lower(sha256(encode_utf8(s)))
}

/// Every character of a hexadecimal text is a hexadecimal digit.
pub proof fn lemma_hex_lower_chars(bytes: Seq<u8>)
    ensures
        hex_lower(bytes).len() == 2 * bytes.len(),
        forall|i: int| 0 <= i < hex_lower(bytes).len() ==> is_hex_char(#[trigger] hex_lower(bytes)[i]),
{
    assert forall|i: int| 0 <= i < hex_lower(bytes).len() implies is_hex_char(
        #[trigger] hex_lower(bytes)[i],
    ) by {
        let b = bytes[i / 2] as int;
        assert(0 <= b / 16 < 16 && 0 <= b % 16 < 16);
    }
}

/// Text of a byte string in lower-case hexadecimal.
///
/// Trusted: calls `hex::encode`, which writes each byte as two digits of
/// `0123456789abcdef`, the high four bits first.
#[verifier::external_body]
pub(crate) fn hex_encode(bytes: &[u8]) -> (text: String)
    ensures
        text@ == hex_lower(bytes@),
{
    hex::encode(bytes)
}

/// The SHA-256 digest of `data`.
///
/// Trusted: calls `sha2::Sha256::digest`, which hashes the whole input in
/// one pass; the digest is a function of the input alone and is 32 bytes
/// long.
#[verifier::external_body]
pub(crate) fn sha256_digest(data: &[u8]) -> (out: Vec<u8>)
    ensures
        out@ == sha256(data@),
        out@.len() == 32,
{
    sha2::Sha256::digest(data).to_vec()
}

/// SHA-256 of the text's UTF-8 bytes, as 64 lower-case hexadecimal digits.
pub fn sha256_hex(s: &str) -> (text: String)
    ensures
        text@ == sha256_hex_spec(s@),
        text@.len() == 64,
{
    let digest = sha256_digest(s.as_bytes());
    hex_encode(digest.as_slice())
}

/// What the ledger keeps of a refresh token: the tag `sha256:` and the
/// hexadecimal SHA-256 digest of the token, never the token.
pub open spec fn token_hash_spec(token: Seq<char>) -> Seq<char> {
    "sha256:"@ + sha256_hex_spec(token)
}

/// The hash under which the ledger keeps a refresh token.
pub fn refresh_token_hash(token: &str) -> (hash: String)
    ensures
        hash@ == token_hash_spec(token@),
{
    String::from_str("sha256:").concat(sha256_hex(token).as_str())
}

/// No character of a token hash is a dot.
pub proof fn lemma_token_hash_has_no_dot(token: Seq<char>)
    ensures
        !token_hash_spec(token).contains('.'),
{
    reveal_strlit("sha256:");
    let digits = sha256_hex_spec(token);
    let hash = token_hash_spec(token);
    lemma_hex_lower_chars(sha256(encode_utf8(token)));
    assert forall|i: int| 0 <= i < hash.len() implies hash[i] != '.' by {
        if i >= 7 {
            assert(hash[i] == digits[i - 7]);
            assert(is_hex_char(digits[i - 7]));
        }
    }
}

/// The hash kept for a token in compact form, which joins its parts with
/// dots, is never the token itself.
pub proof fn lemma_token_hash_differs(token: Seq<char>)
    requires
        token.contains('.'),
    ensures
        token_hash_spec(token) != token,
{
    lemma_token_hash_has_no_dot(token);
}

} // verus!
