//! The content comparator: two byte buffers count as equal exactly when their
//! SHA-256 digests are bit-identical. Digest equality stands in for content
//! equality throughout the library; a digest collision is an accepted,
//! negligible-probability risk.

use vstd::prelude::*;

verus! {

/// The SHA-256 digest of a byte sequence, named abstractly. The digest is a
/// pure function of the input bytes; the library relies on nothing about its
/// value beyond that.
pub uninterp spec fn sha256_of(bytes: Seq<u8>) -> Seq<u8>;

/// Relies on sha2::Sha256 (through sha2::Digest::digest): the digest depends
/// on the input bytes alone.
#[verifier::external_body]
fn sha256(bytes: &[u8]) -> (r: Vec<u8>)
    ensures
        r@ == sha256_of(bytes@),
{
    <sha2::Sha256 as sha2::Digest>::digest(bytes).to_vec()
}

/// Compares two byte slices element by element.
fn bytes_equal(a: &[u8], b: &[u8]) -> (r: bool)
    ensures
        r == (a@ == b@),
{
    if a.len() != b.len() {
        return false;
    }
    let mut i: usize = 0;
    while i < a.len()
        invariant
            a@.len() == b@.len(),
            i <= a@.len(),
            forall|j: int| 0 <= j < i ==> a@[j] == b@[j],
        decreases a@.len() - i,
    {
        if a[i] != b[i] {
            return false;
        }
        i += 1;
    }
    proof {
        assert(a@ =~= b@);
    }
    true
}

/// Content equality verdict between two buffers: true exactly when their
/// SHA-256 digests agree. The verdict is order-independent of which buffer is
/// local and which remote, and identical buffers always compare equal.
pub fn hash_eq(buf1: &[u8], buf2: &[u8]) -> (r: bool)
    ensures
        r == (sha256_of(buf1@) == sha256_of(buf2@)),
        buf1@ == buf2@ ==> r,
{
    let h1 = sha256(buf1);
    let h2 = sha256(buf2);
    bytes_equal(h1.as_slice(), h2.as_slice())
}

} // verus!
