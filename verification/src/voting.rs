//! The commit-reveal engine and the one-shot delegation ledger.
//!
//! Commit: while voting is open, a voter stores a hash commitment and has
//! both chamber weights snapshotted from the balance the host read at that
//! instant — never re-read later, so buying tokens after committing (or
//! dumping them) cannot move the tally.  Reveal: once voting closes and
//! while the reveal window is open, the voter (or a pre-authorized keeper)
//! discloses the vote and salt; the recomputed digest must equal the stored
//! commitment byte for byte.  Delegation hands only weight to a delegatee,
//! never a vote, and is consumed by at most one commit.

use vstd::prelude::*;
use crate::hashing::{bytes32_eq, commitment_preimage, compute_commitment, sha256_of};
use crate::keys::Pubkey;
use crate::math::{floor_sqrt, isqrt};
use crate::state::{Dao, Error, Proposal, ProposalStatus, VoteDelegation, VoterRecord};

verus! {

/// The first error `commit_vote` reports, or `None` when the commit is
/// accepted: voting open by status and clock, the DAO's minimum balance
/// met, no earlier commit by this voter, and room in the commit counter.
pub open spec fn commit_vote_error(
    dao: Dao,
    p: Proposal,
    vr: VoterRecord,
    voter_token_balance: u64,
    now: int,
) -> Option<Error> {
    if p.status != ProposalStatus::Voting {
        Some(Error::VotingNotOpen)
    } else if now >= p.voting_end {
        Some(Error::VotingClosed)
    } else if dao.governance_token_required > 0
        && voter_token_balance < dao.governance_token_required {
        Some(Error::InsufficientTokens)
    } else if vr.has_committed {
        Some(Error::AlreadyCommitted)
    } else if p.commit_count == u64::MAX {
        Some(Error::Overflow)
    } else {
        None
    }
}

/// Commits a vote: stores the commitment and the optional keeper identity
/// in the voter's record, snapshots the capital weight as the raw balance
/// and the community weight as its floor square root, and counts the
/// commit.  The tallies do not move; nothing about the vote is disclosed.
pub fn commit_vote(
    dao: &Dao,
    p: &mut Proposal,
    vr: &mut VoterRecord,
    proposal_key: Pubkey,
    voter: Pubkey,
    voter_token_balance: u64,
    commitment: [u8; 32],
    voter_reveal_authority: Option<Pubkey>,
    now: i64,
) -> (r: Result<(), Error>)
    ensures
        match r {
            Ok(()) => {
                &&& commit_vote_error(*dao, *old(p), *old(vr), voter_token_balance, now as int)
                    is None
                &&& *final(p) == Proposal {
                    commit_count: (old(p).commit_count + 1) as u64,
                    ..*old(p)
                }
                &&& *final(vr) == VoterRecord {
                    voter,
                    proposal: proposal_key,
                    commitment,
                    capital_weight: voter_token_balance,
                    community_weight: floor_sqrt(voter_token_balance as int) as u64,
                    has_committed: true,
                    has_revealed: false,
                    voted_yes: false,
                    voter_reveal_authority,
                }
            },
            Err(e) => {
                &&& *final(p) == *old(p)
                &&& *final(vr) == *old(vr)
                &&& Some(e) == commit_vote_error(
                    *dao,
                    *old(p),
                    *old(vr),
                    voter_token_balance,
                    now as int,
                )
            },
        },
{
    if !matches!(p.status, ProposalStatus::Voting) {
        return Err(Error::VotingNotOpen);
    }
    if now >= p.voting_end {
        return Err(Error::VotingClosed);
    }
    if dao.governance_token_required > 0
        && voter_token_balance < dao.governance_token_required {
        return Err(Error::InsufficientTokens);
    }
    if vr.has_committed {
        return Err(Error::AlreadyCommitted);
    }
    if p.commit_count == u64::MAX {
        return Err(Error::Overflow);
    }
    let community = isqrt(voter_token_balance);
    vr.voter = voter;
    vr.proposal = proposal_key;
    vr.commitment = commitment;
    vr.capital_weight = voter_token_balance;
    vr.community_weight = community;
    vr.has_committed = true;
    vr.has_revealed = false;
    vr.voted_yes = false;
    vr.voter_reveal_authority = voter_reveal_authority;
    p.commit_count = p.commit_count + 1;
    Ok(())
}

/// The first error `delegate_vote` reports, or `None` when the delegation
/// is recorded: voting open by status and clock, and a non-zero balance
/// to delegate.
pub open spec fn delegate_vote_error(
    p: Proposal,
    delegator_token_balance: u64,
    now: int,
) -> Option<Error> {
    if p.status != ProposalStatus::Voting {
        Some(Error::VotingNotOpen)
    } else if now >= p.voting_end {
        Some(Error::VotingClosed)
    } else if delegator_token_balance == 0 {
        Some(Error::InsufficientTokens)
    } else {
        None
    }
}

/// Records a one-shot delegation of the delegator's weight to `delegatee`
/// for this proposal alone.  The delegation carries weight only: the
/// delegatee later chooses vote and salt on its own, so the ballot stays
/// exactly as private as a direct vote.
pub fn delegate_vote(
    p: &Proposal,
    proposal_key: Pubkey,
    delegator: Pubkey,
    delegatee: Pubkey,
    delegator_token_balance: u64,
    now: i64,
) -> (r: Result<VoteDelegation, Error>)
    ensures
        match r {
            Ok(d) => {
                &&& delegate_vote_error(*p, delegator_token_balance, now as int) is None
                &&& d == VoteDelegation {
                    delegator,
                    delegatee,
                    proposal: proposal_key,
                    delegated_capital: delegator_token_balance,
                    delegated_community: floor_sqrt(delegator_token_balance as int) as u64,
                    is_used: false,
                }
            },
            Err(e) => Some(e) == delegate_vote_error(*p, delegator_token_balance, now as int),
        },
{
    if !matches!(p.status, ProposalStatus::Voting) {
        return Err(Error::VotingNotOpen);
    }
    if now >= p.voting_end {
        return Err(Error::VotingClosed);
    }
    if delegator_token_balance == 0 {
        return Err(Error::InsufficientTokens);
    }
    let delegated_community = isqrt(delegator_token_balance);
    Ok(VoteDelegation {
        delegator,
        delegatee,
        proposal: proposal_key,
        delegated_capital: delegator_token_balance,
        delegated_community,
        is_used: false,
    })
}

/// The first error `commit_delegated_vote` reports, or `None` when the
/// commit is accepted.  The caller must be the recorded delegatee and the
/// delegation must belong to this proposal and be unused; combined
/// weights must fit; the delegatee must not have committed already.
pub open spec fn commit_delegated_vote_error(
    p: Proposal,
    del: VoteDelegation,
    vr: VoterRecord,
    proposal_key: Pubkey,
    delegatee: Pubkey,
    delegatee_token_balance: u64,
    now: int,
) -> Option<Error> {
    if del.delegatee@ != delegatee@ {
        Some(Error::NotDelegatee)
    } else if del.proposal@ != proposal_key@ {
        Some(Error::WrongProposal)
    } else if p.status != ProposalStatus::Voting {
        Some(Error::VotingNotOpen)
    } else if now >= p.voting_end {
        Some(Error::VotingClosed)
    } else if del.is_used {
        Some(Error::DelegationAlreadyUsed)
    } else if delegatee_token_balance + del.delegated_capital > u64::MAX {
        Some(Error::Overflow)
    } else if floor_sqrt(delegatee_token_balance as int) + del.delegated_community > u64::MAX {
        Some(Error::Overflow)
    } else if vr.has_committed {
        Some(Error::AlreadyCommitted)
    } else if p.commit_count == u64::MAX {
        Some(Error::Overflow)
    } else {
        None
    }
}

/// Commits the delegatee's vote carrying both the delegatee's own weight
/// and the delegated weight.  Capital weights add linearly; community
/// weights are summed after the square root is taken on each balance
/// separately, so a large holder cannot launder size into a smaller
/// quadratic weight by splitting through a delegate.  The commitment
/// preimage uses the delegatee's identity, so the later reveal needs no
/// special handling.  The delegation is consumed: it funds this one
/// commit and can never be used again.
pub fn commit_delegated_vote(
    p: &mut Proposal,
    del: &mut VoteDelegation,
    vr: &mut VoterRecord,
    proposal_key: Pubkey,
    delegatee: Pubkey,
    delegatee_token_balance: u64,
    commitment: [u8; 32],
    voter_reveal_authority: Option<Pubkey>,
    now: i64,
) -> (r: Result<(), Error>)
    ensures
        match r {
            Ok(()) => {
                &&& commit_delegated_vote_error(
                    *old(p),
                    *old(del),
                    *old(vr),
                    proposal_key,
                    delegatee,
                    delegatee_token_balance,
                    now as int,
                ) is None
                &&& *final(p) == Proposal {
                    commit_count: (old(p).commit_count + 1) as u64,
                    ..*old(p)
                }
                &&& *final(del) == VoteDelegation { is_used: true, ..*old(del) }
                &&& *final(vr) == VoterRecord {
                    voter: delegatee,
                    proposal: proposal_key,
                    commitment,
                    capital_weight: (delegatee_token_balance
                        + old(del).delegated_capital) as u64,
                    community_weight: (floor_sqrt(delegatee_token_balance as int)
                        + old(del).delegated_community) as u64,
                    has_committed: true,
                    has_revealed: false,
                    voted_yes: false,
                    voter_reveal_authority,
                }
            },
            Err(e) => {
                &&& *final(p) == *old(p)
                &&& *final(del) == *old(del)
                &&& *final(vr) == *old(vr)
                &&& Some(e) == commit_delegated_vote_error(
                    *old(p),
                    *old(del),
                    *old(vr),
                    proposal_key,
                    delegatee,
                    delegatee_token_balance,
                    now as int,
                )
            },
        },
{
    if !(del.delegatee == delegatee) {
        return Err(Error::NotDelegatee);
    }
    if !(del.proposal == proposal_key) {
        return Err(Error::WrongProposal);
    }
    if !matches!(p.status, ProposalStatus::Voting) {
        return Err(Error::VotingNotOpen);
    }
    if now >= p.voting_end {
        return Err(Error::VotingClosed);
    }
    if del.is_used {
        return Err(Error::DelegationAlreadyUsed);
    }
    if delegatee_token_balance > u64::MAX - del.delegated_capital {
        return Err(Error::Overflow);
    }
    let combined_capital = delegatee_token_balance + del.delegated_capital;
    let own_community = isqrt(delegatee_token_balance);
    if own_community > u64::MAX - del.delegated_community {
        return Err(Error::Overflow);
    }
    let combined_community = own_community + del.delegated_community;
    if vr.has_committed {
        return Err(Error::AlreadyCommitted);
    }
    if p.commit_count == u64::MAX {
        return Err(Error::Overflow);
    }
    vr.voter = delegatee;
    vr.proposal = proposal_key;
    vr.commitment = commitment;
    vr.capital_weight = combined_capital;
    vr.community_weight = combined_community;
    vr.has_committed = true;
    vr.has_revealed = false;
    vr.voted_yes = false;
    vr.voter_reveal_authority = voter_reveal_authority;
    del.is_used = true;
    p.commit_count = p.commit_count + 1;
    Ok(())
}

/// The single-use law of delegations: once a delegation is marked used —
/// as a successful `commit_delegated_vote` leaves it — any further
/// attempt to commit with it, by anyone, at any open moment, fails with
/// `DelegationAlreadyUsed`.
pub proof fn lemma_delegation_single_use(
    p: Proposal,
    del: VoteDelegation,
    vr: VoterRecord,
    proposal_key: Pubkey,
    delegatee: Pubkey,
    delegatee_token_balance: u64,
    now: int,
)
    requires
        del.is_used,
        del.delegatee@ == delegatee@,
        del.proposal@ == proposal_key@,
        p.status == ProposalStatus::Voting,
        now < p.voting_end,
    ensures
        commit_delegated_vote_error(
            p,
            del,
            vr,
            proposal_key,
            delegatee,
            delegatee_token_balance,
            now,
        ) == Some(Error::DelegationAlreadyUsed),
{
}

/// Who may submit a reveal for this record: the voter, or the keeper the
/// voter named at commit time.
pub open spec fn may_reveal(vr: VoterRecord, caller: Pubkey) -> bool {
    ||| caller@ == vr.voter@
    ||| (vr.voter_reveal_authority matches Some(k) && k@ == caller@)
}

/// The first error `reveal_vote` reports, or `None` when the reveal is
/// accepted: the clock inside `[voting_end, reveal_end)`, a commitment on
/// record and not yet revealed, an authorized caller, a digest over the
/// original voter's identity that matches the stored commitment byte for
/// byte, and room in the tallies.
pub open spec fn reveal_vote_error(
    p: Proposal,
    vr: VoterRecord,
    caller: Pubkey,
    vote: bool,
    salt: Seq<u8>,
    now: int,
) -> Option<Error> {
    if now < p.voting_end {
        Some(Error::RevealTooEarly)
    } else if now >= p.reveal_end {
        Some(Error::RevealClosed)
    } else if !vr.has_committed {
        Some(Error::NotCommitted)
    } else if vr.has_revealed {
        Some(Error::AlreadyRevealed)
    } else if !may_reveal(vr, caller) {
        Some(Error::NotAuthorizedToReveal)
    } else if sha256_of(commitment_preimage(vote, salt, vr.voter@)) != vr.commitment@ {
        Some(Error::CommitmentMismatch)
    } else if vote && (p.yes_capital + vr.capital_weight > u64::MAX
        || p.yes_community + vr.community_weight > u64::MAX) {
        Some(Error::Overflow)
    } else if !vote && (p.no_capital + vr.capital_weight > u64::MAX
        || p.no_community + vr.community_weight > u64::MAX) {
        Some(Error::Overflow)
    } else if p.reveal_count == u64::MAX {
        Some(Error::Overflow)
    } else {
        None
    }
}

/// How one successful reveal moves a proposal and the revealing voter's
/// record: the record is marked revealed with the disclosed vote, the
/// chosen side's tallies grow by exactly the record's snapshotted
/// weights, the reveal counter advances, and nothing else changes.
pub open spec fn reveal_transition(
    p1: Proposal,
    r1: VoterRecord,
    p2: Proposal,
    r2: VoterRecord,
    vote: bool,
) -> bool {
    &&& r2 == VoterRecord { has_revealed: true, voted_yes: vote, ..r1 }
    &&& p2 == Proposal {
        yes_capital: if vote { (p1.yes_capital + r1.capital_weight) as u64 } else {
            p1.yes_capital
        },
        no_capital: if !vote { (p1.no_capital + r1.capital_weight) as u64 } else {
            p1.no_capital
        },
        yes_community: if vote { (p1.yes_community + r1.community_weight) as u64 } else {
            p1.yes_community
        },
        no_community: if !vote { (p1.no_community + r1.community_weight) as u64 } else {
            p1.no_community
        },
        reveal_count: (p1.reveal_count + 1) as u64,
        ..p1
    }
}

/// The best-effort incentive for submitting a reveal: the fixed rebate,
/// paid only when the proposal's balance keeps at least the configured
/// reserve after payment; otherwise nothing, never an error.
pub open spec fn rebate_amount(proposal_lamports: u64, rebate_reserve_lamports: u64) -> u64 {
    if proposal_lamports > crate::REVEAL_REBATE_LAMPORTS + rebate_reserve_lamports {
        crate::REVEAL_REBATE_LAMPORTS
    } else {
        0u64
    }
}

/// Reveals a vote.  The digest is always recomputed over the *original
/// voter's* identity — also when the keeper calls — so a keeper can submit
/// but never alter a vote.  On a match the record's snapshotted weights
/// join the disclosed side's tallies, which only ever grow.  The returned
/// amount is the rebate the host should pay the caller, zero when paying
/// would cut into the reserve.
pub fn reveal_vote(
    p: &mut Proposal,
    vr: &mut VoterRecord,
    caller: Pubkey,
    vote: bool,
    salt: [u8; 32],
    proposal_lamports: u64,
    rebate_reserve_lamports: u64,
    now: i64,
) -> (r: Result<u64, Error>)
    ensures
        match r {
            Ok(rebate) => {
                &&& reveal_vote_error(*old(p), *old(vr), caller, vote, salt@, now as int)
                    is None
                &&& reveal_transition(*old(p), *old(vr), *final(p), *final(vr), vote)
                &&& final(vr).voted_yes == vote
                &&& rebate == rebate_amount(proposal_lamports, rebate_reserve_lamports)
                &&& final(p).yes_capital >= old(p).yes_capital
                &&& final(p).no_capital >= old(p).no_capital
                &&& final(p).yes_community >= old(p).yes_community
                &&& final(p).no_community >= old(p).no_community
            },
            Err(e) => {
                &&& *final(p) == *old(p)
                &&& *final(vr) == *old(vr)
                &&& Some(e) == reveal_vote_error(
                    *old(p),
                    *old(vr),
                    caller,
                    vote,
                    salt@,
                    now as int,
                )
            },
        },
{
    if now < p.voting_end {
        return Err(Error::RevealTooEarly);
    }
    if now >= p.reveal_end {
        return Err(Error::RevealClosed);
    }
    if !vr.has_committed {
        return Err(Error::NotCommitted);
    }
    if vr.has_revealed {
        return Err(Error::AlreadyRevealed);
    }
    let is_voter = caller == vr.voter;
    let is_keeper = match &vr.voter_reveal_authority {
        Some(k) => *k == caller,
        None => false,
    };
    if !(is_voter || is_keeper) {
        return Err(Error::NotAuthorizedToReveal);
    }
    let computed = compute_commitment(vote, &salt, &vr.voter);
    if !bytes32_eq(&computed, &vr.commitment) {
        return Err(Error::CommitmentMismatch);
    }
    if vote {
        if p.yes_capital > u64::MAX - vr.capital_weight {
            return Err(Error::Overflow);
        }
        if p.yes_community > u64::MAX - vr.community_weight {
            return Err(Error::Overflow);
        }
    } else {
        if p.no_capital > u64::MAX - vr.capital_weight {
            return Err(Error::Overflow);
        }
        if p.no_community > u64::MAX - vr.community_weight {
            return Err(Error::Overflow);
        }
    }
    if p.reveal_count == u64::MAX {
        return Err(Error::Overflow);
    }
    if vote {
        p.yes_capital = p.yes_capital + vr.capital_weight;
        p.yes_community = p.yes_community + vr.community_weight;
    } else {
        p.no_capital = p.no_capital + vr.capital_weight;
        p.no_community = p.no_community + vr.community_weight;
    }
    vr.has_revealed = true;
    vr.voted_yes = vote;
    p.reveal_count = p.reveal_count + 1;
    let rebate: u64 = if (proposal_lamports as u128)
        > (crate::REVEAL_REBATE_LAMPORTS as u128) + (rebate_reserve_lamports as u128) {
        crate::REVEAL_REBATE_LAMPORTS
    } else {
        0
    };
    Ok(rebate)
}

} // verus!
