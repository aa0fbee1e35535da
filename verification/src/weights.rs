//! The voting-power compatibility record a third-party governance
//! platform reads, and the committed-weight query.

use vstd::prelude::*;
use crate::keys::Pubkey;
use crate::math::{floor_sqrt, isqrt};
use crate::state::{Dao, Error, VoterRecord, VoterWeightRecord, VotingConfig};

verus! {

/// The externally visible weight of a balance under a voting config: the
/// linear balance when token weighted, the quadratic weight otherwise.
pub open spec fn external_weight(cfg: VotingConfig, raw_balance: u64) -> int {
    match cfg {
        VotingConfig::TokenWeighted => raw_balance as int,
        VotingConfig::Quadratic => floor_sqrt(raw_balance as int),
        VotingConfig::DualChamber { .. } => floor_sqrt(raw_balance as int),
    }
}

/// Builds the fixed-layout voting-power record from the balance the host
/// read: weight per the DAO's voting config, expiry 100 time units from
/// now so stale reads are rejected, no action tag or target, reserved
/// bytes zero.  The governing token mint must be the DAO's.
pub fn update_voter_weight_record(
    dao: &Dao,
    realm: Pubkey,
    governing_token_mint: Pubkey,
    voter: Pubkey,
    voter_token_balance: u64,
    current_slot: u64,
) -> (r: Result<VoterWeightRecord, Error>)
    requires
        current_slot + 100 <= u64::MAX,
    ensures
        match r {
            Ok(vwr) => {
                &&& governing_token_mint@ == dao.governance_token@
                &&& vwr.realm == realm
                &&& vwr.governing_token_mint == governing_token_mint
                &&& vwr.governing_token_owner == voter
                &&& vwr.voter_weight == external_weight(dao.voting_config, voter_token_balance)
                &&& vwr.voter_weight_expiry == Some((current_slot + 100) as u64)
                &&& vwr.weight_action is None
                &&& vwr.weight_action_target is None
                &&& forall|i: int| 0 <= i < 8 ==> vwr.reserved@[i] == 0u8
            },
            Err(e) => {
                &&& e == Error::GoverningMintMismatch
                &&& governing_token_mint@ != dao.governance_token@
            },
        },
{
    if !(governing_token_mint == dao.governance_token) {
        return Err(Error::GoverningMintMismatch);
    }
    let weight = match dao.voting_config {
        VotingConfig::TokenWeighted => voter_token_balance,
        VotingConfig::Quadratic => isqrt(voter_token_balance),
        VotingConfig::DualChamber { .. } => isqrt(voter_token_balance),
    };
    Ok(VoterWeightRecord {
        realm,
        governing_token_mint,
        governing_token_owner: voter,
        voter_weight: weight,
        voter_weight_expiry: Some(current_slot + 100),
        weight_action: None,
        weight_action_target: None,
        reserved: [0u8; 8],
    })
}

/// A `u64` as its eight little-endian bytes.
pub open spec fn le_bytes_u64(x: u64) -> Seq<u8> {
    seq![
        (x & 0xff) as u8,
        ((x >> 8) & 0xff) as u8,
        ((x >> 16) & 0xff) as u8,
        ((x >> 24) & 0xff) as u8,
        ((x >> 32) & 0xff) as u8,
        ((x >> 40) & 0xff) as u8,
        ((x >> 48) & 0xff) as u8,
        ((x >> 56) & 0xff) as u8,
    ]
}

/// The record's binding wire layout, fields in fixed order: realm (32),
/// governing token mint (32), owner (32), weight (8, little endian),
/// optional expiry (1 presence + 8), optional action tag (1 presence +
/// 1), optional action target (1 presence + 32), 8 reserved bytes.
pub open spec fn spec_voter_weight_record_bytes(vwr: VoterWeightRecord) -> Seq<u8> {
    vwr.realm@ + vwr.governing_token_mint@ + vwr.governing_token_owner@
        + le_bytes_u64(vwr.voter_weight) + (match vwr.voter_weight_expiry {
        None => seq![0u8],
        Some(x) => seq![1u8] + le_bytes_u64(x),
    }) + (match vwr.weight_action {
        None => seq![0u8],
        Some(a) => seq![1u8, a],
    }) + (match vwr.weight_action_target {
        None => seq![0u8],
        Some(k) => seq![1u8] + k@,
    }) + vwr.reserved@
}

/// Appends 32 bytes to a byte string.
fn push_bytes32(out: &mut Vec<u8>, b: &[u8; 32])
    ensures
        final(out)@ == old(out)@ + b@,
{
    let mut i: usize = 0;
    while i < 32
        invariant
            0 <= i <= 32,
            out@.len() == old(out)@.len() + i,
            forall|j: int| 0 <= j < old(out)@.len() ==> out@[j] == old(out)@[j],
            forall|j: int| 0 <= j < i ==> out@[old(out)@.len() + j] == b@[j],
        decreases 32 - i,
    {
        out.push(b[i]);
        i = i + 1;
    }
    proof {
        assert(out@ =~= old(out)@ + b@);
    }
}

/// Appends a `u64` as eight little-endian bytes.
fn push_le_u64(out: &mut Vec<u8>, x: u64)
    ensures
        final(out)@ == old(out)@ + le_bytes_u64(x),
{
    out.push((x & 0xff) as u8);
    out.push(((x >> 8) & 0xff) as u8);
    out.push(((x >> 16) & 0xff) as u8);
    out.push(((x >> 24) & 0xff) as u8);
    out.push(((x >> 32) & 0xff) as u8);
    out.push(((x >> 40) & 0xff) as u8);
    out.push(((x >> 48) & 0xff) as u8);
    out.push(((x >> 56) & 0xff) as u8);
    proof {
        assert(out@ =~= old(out)@ + le_bytes_u64(x));
    }
}

/// Serializes the record in its binding wire layout, the form the
/// consuming platform reads.
pub fn voter_weight_record_bytes(vwr: &VoterWeightRecord) -> (r: Vec<u8>)
    ensures
        r@ == spec_voter_weight_record_bytes(*vwr),
{
    let mut out: Vec<u8> = Vec::new();
    push_bytes32(&mut out, &vwr.realm.bytes);
    push_bytes32(&mut out, &vwr.governing_token_mint.bytes);
    push_bytes32(&mut out, &vwr.governing_token_owner.bytes);
    push_le_u64(&mut out, vwr.voter_weight);
    let ghost fixed_part = vwr.realm@ + vwr.governing_token_mint@
        + vwr.governing_token_owner@ + le_bytes_u64(vwr.voter_weight);
    proof {
        assert(out@ =~= fixed_part);
    }
    match vwr.voter_weight_expiry {
        None => out.push(0u8),
        Some(x) => {
            out.push(1u8);
            push_le_u64(&mut out, x);
        },
    }
    let ghost expiry_part = match vwr.voter_weight_expiry {
        None => seq![0u8],
        Some(x) => seq![1u8] + le_bytes_u64(x),
    };
    proof {
        assert(out@ =~= fixed_part + expiry_part);
    }
    match vwr.weight_action {
        None => out.push(0u8),
        Some(a) => {
            out.push(1u8);
            out.push(a);
        },
    }
    let ghost action_part = match vwr.weight_action {
        None => seq![0u8],
        Some(a) => seq![1u8, a],
    };
    proof {
        assert(out@ =~= fixed_part + expiry_part + action_part);
    }
    match vwr.weight_action_target {
        None => out.push(0u8),
        Some(k) => {
            out.push(1u8);
            push_bytes32(&mut out, &k.bytes);
        },
    }
    let ghost target_part = match vwr.weight_action_target {
        None => seq![0u8],
        Some(k) => seq![1u8] + k@,
    };
    proof {
        assert(out@ =~= fixed_part + expiry_part + action_part + target_part);
    }
    let ghost before_reserved = out@;
    let mut i: usize = 0;
    while i < 8
        invariant
            0 <= i <= 8,
            out@.len() == before_reserved.len() + i,
            forall|j: int| 0 <= j < before_reserved.len() ==> out@[j] == before_reserved[j],
            forall|j: int| 0 <= j < i
                ==> out@[before_reserved.len() + j] == vwr.reserved@[j],
        decreases 8 - i,
    {
        out.push(vwr.reserved[i]);
        i = i + 1;
    }
    proof {
        assert(out@ =~= before_reserved + vwr.reserved@);
        assert(out@ =~= spec_voter_weight_record_bytes(*vwr));
    }
    out
}

/// The committed community weight of a voter: the snapshotted quadratic
/// weight once the voter has committed, zero before.
pub fn get_voter_weight_record(vr: &VoterRecord) -> (r: u64)
    ensures
        r == if vr.has_committed {
            vr.community_weight
        } else {
            0u64
        },
{
    if vr.has_committed {
        vr.community_weight
    } else {
        0
    }
}

} // verus!
