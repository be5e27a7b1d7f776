//! Digests of text.

use crate::text::cat2;
use sha2::{Digest, Sha256};
use vstd::prelude::*;

verus! {

/// The name for the SHA-256 digest of a text's bytes in lower-case hexadecimal.
pub uninterp spec fn sha256_of(text: Seq<char>) -> Seq<char>;

/// `sha2::Sha256` over the bytes of a text, shown in lower-case hexadecimal: 64
/// digits that depend on the text alone.
#[verifier::external_body]
pub(crate) fn sha256(text: &str) -> (r: String)
    ensures
        r@ == sha256_of(text@),
        r@.len() == 64,
{
    let mut hasher = Sha256::new();
    hasher.update(text.as_bytes());
    format!("{:x}", hasher.finalize())
}

/// The digest of a text in hexadecimal.
pub fn sha256_hex(text: &str) -> (r: String)
    ensures
        r@ == sha256_of(text@),
{
    sha256(text)
}

/// The digest of a page's content, with the name of the digest before it.
pub fn content_digest(content: &str) -> (r: String)
    ensures
        r@ == "sha256:"@ + sha256_of(content@),
{
    cat2("sha256:", &sha256(content))
}

} // verus!
