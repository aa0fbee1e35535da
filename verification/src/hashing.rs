//! The hash-based vote commitment.
//!
//! A commitment is the 32-byte digest of `vote byte ‖ 32-byte salt ‖
//! 32-byte voter identity`.  The scheme needs only second-preimage
//! resistance and that the digest leaks nothing about the vote bit; the
//! digest itself is an opaque function of the preimage.

use vstd::prelude::*;
use crate::keys::Pubkey;

verus! {

/// The 65-byte preimage of a vote commitment: one vote byte (1 for yes,
/// 0 for no), the 32-byte salt, then the voter's 32-byte identity.
pub open spec fn commitment_preimage(vote: bool, salt: Seq<u8>, voter: Seq<u8>) -> Seq<u8> {
    seq![if vote { 1u8 } else { 0u8 }] + salt + voter
}

/// The SHA-256 digest of a byte string.
pub uninterp spec fn sha256_of(data: Seq<u8>) -> Seq<u8>;

/// Relies on sha2::Sha256::digest: the 32-byte SHA-256 digest of the input,
/// a function of the input bytes alone.
#[verifier::external_body]
fn sha256(data: &Vec<u8>) -> (r: [u8; 32])
    ensures
        r@ == sha256_of(data@),
{
    let digest = <sha2::Sha256 as sha2::Digest>::digest(data.as_slice());
    digest.into()
}

/// Whether two 32-byte strings are equal.
pub fn bytes32_eq(a: &[u8; 32], b: &[u8; 32]) -> (r: bool)
    ensures
        r == (a@ == b@),
{
    let mut i: usize = 0;
    while i < 32
        invariant
            0 <= i <= 32,
            forall|j: int| 0 <= j < i ==> a@[j] == b@[j],
        decreases 32 - i,
    {
        if a[i] != b[i] {
            return false;
        }
        i = i + 1;
    }
    proof {
        assert(a@ =~= b@);
    }
    true
}

/// The commitment a voter submits for `vote` under `salt`: the digest of
/// the commitment preimage built from the voter's own identity.
pub fn compute_commitment(vote: bool, salt: &[u8; 32], voter: &Pubkey) -> (r: [u8; 32])
    ensures
        r@ == sha256_of(commitment_preimage(vote, salt@, voter@)),
{
    let vote_byte: u8 = if vote {
        1
    } else {
        0
    };
    let mut preimage: Vec<u8> = Vec::new();
    preimage.push(vote_byte);
    let mut i: usize = 0;
    while i < 32
        invariant
            0 <= i <= 32,
            preimage@.len() == 1 + i,
            preimage@[0] == (if vote { 1u8 } else { 0u8 }),
            forall|j: int| 0 <= j < i ==> preimage@[1 + j] == salt@[j],
        decreases 32 - i,
    {
        preimage.push(salt[i]);
        i = i + 1;
    }
    let mut k: usize = 0;
    while k < 32
        invariant
            0 <= k <= 32,
            preimage@.len() == 33 + k,
            preimage@[0] == (if vote { 1u8 } else { 0u8 }),
            forall|j: int| 0 <= j < 32 ==> preimage@[1 + j] == salt@[j],
            forall|j: int| 0 <= j < k ==> preimage@[33 + j] == voter.bytes@[j],
        decreases 32 - k,
    {
        preimage.push(voter.bytes[k]);
        k = k + 1;
    }
    proof {
        assert(preimage@ =~= commitment_preimage(vote, salt@, voter@));
    }
    sha256(&preimage)
}

} // verus!
