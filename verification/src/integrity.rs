//! The integrity service: the digest by which a file's content is recognised.

use crate::digest::{hex_text, sha256, sha256_of, to_hex};
use crate::protection::RansomwareProtection;
use vstd::prelude::*;

verus! {

/// The digest of `content` as text: SHA-256 in lowercase hexadecimal.
pub open spec fn content_hash(content: Seq<u8>) -> Seq<char> {
    hex_text(sha256(content))
}

impl RansomwareProtection {
    /// The digest of a file's `content`: 64 lowercase hexadecimal digits that
    /// depend on the bytes alone.
    pub fn calculate_file_hash(&self, content: &[u8]) -> (hash: String)
        ensures
            hash@ == content_hash(content@),
            hash@.len() == 64,
    {
        let digest: [u8; 32] = sha256_of(content);
        to_hex(digest.as_slice())
    }
}

} // verus!
