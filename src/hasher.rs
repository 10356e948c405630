use vstd::prelude::*;

verus! {

/// The SHA-256 digest of a byte string.
pub uninterp spec fn sha256_of(content: Seq<u8>) -> Seq<u8>;

/// Relies on `sha2::Sha256` through `sha2::Digest::digest`: the SHA-256
/// digest of the bytes, which is 32 bytes long.
#[verifier::external_body]
fn sha256(content: &[u8]) -> (r: Vec<u8>)
    ensures
        r@ == sha256_of(content@),
        r@.len() == 32,
{
    <sha2::Sha256 as sha2::Digest>::digest(content).to_vec()
}

/// The content hasher whose digests travel in the `digest` header.
#[derive(Debug, Clone, Copy)]
pub struct Sha256Hasher;

impl Sha256Hasher {
    /// The algorithm name that prefixes the `digest` header's value.
    pub fn algorithm() -> (r: &'static str)
        ensures
            r@ == "SHA-256"@,
    {
        "SHA-256"
    }

    /// The digest of `content`: deterministic, defined on every byte string.
    pub fn hash(content: &[u8]) -> (r: Vec<u8>)
        ensures
            r@ == sha256_of(content@),
            r@.len() == 32,
    {
        sha256(content)
    }
}

/// Identical bodies always have identical digests.
pub proof fn lemma_digest_deterministic(a: Seq<u8>, b: Seq<u8>)
    requires
        a == b,
    ensures
        sha256_of(a) == sha256_of(b),
{
}

} // verus!
