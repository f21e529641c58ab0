use vstd::prelude::*;

verus! {

/// The SHA-256 digest of `data`, written as lower-case hexadecimal digits.
pub uninterp spec fn sha256_hex(data: Seq<u8>) -> Seq<char>;

/// Calls `sha256::digest` on a byte slice. The crate hashes the bytes with
/// SHA-256 and hex-encodes the digest; the contract only names that result:
/// equal bytes give equal text.
#[verifier::external_body]
fn digest_hex(data: &[u8]) -> (hex: String)
    ensures
        hex@ == sha256_hex(data@),
{
    sha256::digest(data)
}

/// The hash under which `data` is looked up and recorded.
pub fn content_hash(data: &[u8]) -> (hash: String)
    ensures
        hash@ == sha256_hex(data@),
{
    digest_hex(data)
}

} // verus!
