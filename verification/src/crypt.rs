//! Cryptographic services: the caveat-restricted token engine and password
//! hashing. All signing primitives sit behind a small trusted boundary; the
//! caveat logic around them is verified.
pub mod macaroon;
pub mod pwd;

use sha2::Digest;
use vstd::prelude::*;

verus! {

pub type Result<T> = core::result::Result<T, Error>;

#[derive(Debug)]
pub enum Error {
    MacaroonCaveatFail,
    PwdNotMatching,
}

/// What SHA-256 yields for a byte sequence.
pub uninterp spec fn sha256_of(data: Seq<u8>) -> Seq<u8>;

/// Relies on sha2::Sha256: the digest depends on the input alone and is
/// 32 bytes long.
#[verifier::external_body]
pub(crate) fn sha256(data: &[u8]) -> (r: Vec<u8>)
    ensures
        r@ == sha256_of(data@),
        r@.len() == 32,
{
    let mut hasher = sha2::Sha256::new();
    hasher.update(data);
    hasher.finalize().to_vec()
}

} // verus!
