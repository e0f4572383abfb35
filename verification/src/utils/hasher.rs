//! Hashing of token values.
use vstd::prelude::*;
use vstd::utf8::encode_utf8;
use sha2::Digest;

verus! {

/// The SHA-256 digest of `data`, as `sha2::Sha256` computes it.
pub uninterp spec fn sha256_digest(data: Seq<u8>) -> Seq<u8>;

/// `sha2::Sha256::new`, `update(data)` and `finalize`: the SHA-256 digest of
/// `data`. The digest is named `sha256_digest`; the only fact stated about it
/// is its documented size of 32 bytes.
#[verifier::external_body]
fn sha256(data: &[u8]) -> (res: Vec<u8>)
    ensures
        res@ == sha256_digest(data@),
        res@.len() == 32,
{
    let mut hasher = sha2::Sha256::new();
    hasher.update(data);
    hasher.finalize().to_vec()
}

/// Hashes token values.
pub struct Hasher;

impl Hasher {
    /// The SHA-256 digest of the UTF-8 bytes of `value`.
    pub fn hash_string(value: String) -> (res: Vec<u8>)
        ensures
            res@ == sha256_digest(encode_utf8(value@)),
            res@.len() == 32,
    {
        sha256(value.as_str().as_bytes())
    }
}

} // verus!
