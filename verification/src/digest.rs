//! Content digests: SHA-256 of the bytes, written in lower-case hex, and
//! the cache key of a Markdown document built from it.

use vstd::prelude::*;
use sha2::Digest;
use crate::sections::MarkdownProcessor;
use crate::text::push_str;

verus! {

/// The SHA-256 digest of a byte sequence.
pub uninterp spec fn sha256(data: Seq<u8>) -> Seq<u8>;

/// Hashes bytes with `sha2::Sha256::digest`; the digest has 32 bytes.
#[verifier::external_body]
fn sha256_digest(data: &[u8]) -> (r: Vec<u8>)
    ensures
        r@ == sha256(data@),
        r@.len() == 32,
{
    sha2::Sha256::digest(data).to_vec()
}

/// Lower-case hex digit of a value below 16.
pub open spec fn hex_digit(n: nat) -> char {
    if n < 10 {
        (('0' as nat) + n) as char
    } else {
        (('a' as nat) + n - 10) as char
    }
}

/// Two lower-case hex digits per byte, high nibble first.
pub open spec fn hex_spec(data: Seq<u8>) -> Seq<char>
    decreases data.len(),
{
    if data.len() == 0 {
        Seq::empty()
    } else {
        hex_spec(data.drop_last()).push(hex_digit((data.last() / 16) as nat)).push(
            hex_digit((data.last() % 16) as nat),
        )
    }
}

/// Encodes bytes with `hex::encode`: two lower-case hex digits per byte,
/// high nibble first.
#[verifier::external_body]
fn hex_encode(data: &[u8]) -> (r: String)
    ensures
        r@ == hex_spec(data@),
{
    hex::encode(data)
}

/// The lower-case hex SHA-256 of some bytes.
pub fn sha256_hex(data: &[u8]) -> (h: String)
    ensures
        h@ == hex_spec(sha256(data@)),
{
    let digest = sha256_digest(data);
    hex_encode(digest.as_slice())
}

/// The cache key of a document's text.
pub open spec fn cache_key_spec(text: Seq<char>) -> Seq<char> {
    "md_"@ + hex_spec(sha256(vstd::utf8::encode_utf8(text)))
}

impl MarkdownProcessor {
    /// The cache key of a document: `md_` and the hex SHA-256 of its bytes.
    pub fn generate_cache_key(&self, content: &str) -> (k: String)
        ensures
            k@ == cache_key_spec(content@),
    {
        let digest = sha256_digest(content.as_bytes());
        let hex = hex_encode(digest.as_slice());
        let mut k = String::from_str("md_");
        push_str(&mut k, hex.as_str());
        k
    }
}

/// Documents with the same bytes share a cache key.
pub proof fn lemma_cache_key_deterministic(a: Seq<char>, b: Seq<char>)
    requires
        a == b,
    ensures
        cache_key_spec(a) == cache_key_spec(b),
{
}

} // verus!
