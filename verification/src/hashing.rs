//! Credential hashing.
//!
//! Passwords are never stored; the store holds a fixed-length digest and
//! login compares digests for plain equality.  The digest function itself
//! is an outside computation; the library only names its result.
use vstd::prelude::*;
use crypto::digest::Digest;

verus! {

/// The hexadecimal SHA3-384 digest of a string, as the hashing backend
/// renders it.  Same input, same digest, on every machine.
pub uninterp spec fn digest_of(s: Seq<char>) -> Seq<char>;

/// Relies on `crypto::sha3::Sha3::sha3_384` (with `Digest::input` and
/// `Digest::result_str`): the digest is a function of the input bytes
/// alone, rendered as lowercase hexadecimal.
#[verifier::external_body]
pub(crate) fn hash_string(s: &str) -> (r: String)
    ensures
        r@ == digest_of(s@),
{
    let mut hasher = crypto::sha3::Sha3::sha3_384();
    hasher.input(s.as_bytes());
    hasher.result_str()
}

} // verus!
