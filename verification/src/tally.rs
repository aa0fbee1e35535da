//! Finalization: quorum and threshold evaluation once the reveal window
//! has elapsed, and the accounting law tying a proposal's running tallies
//! to the records of the voters who revealed.

use vstd::prelude::*;
use crate::state::{Dao, Error, Proposal, ProposalStatus, VoterRecord, VotingConfig};
use crate::voting::reveal_transition;

verus! {

/// Quorum: someone committed, and the revealed share of committed voters
/// reaches the configured percentage — compared on cross-multiplied
/// integers, with no rounding tolerance.
pub open spec fn spec_quorum_met(dao: Dao, p: Proposal) -> bool {
    p.commit_count > 0
        && p.reveal_count * 100 >= p.commit_count * dao.quorum_percentage
}

/// The pass rule of each voting mode, evaluated on the revealed tallies.
/// Majorities are strict: a tie fails.  Each dual chamber must clear its
/// own threshold of its own total; a failing chamber fails the proposal
/// whatever the other chamber's margin.
pub open spec fn spec_vote_passes(cfg: VotingConfig, p: Proposal) -> bool {
    match cfg {
        VotingConfig::TokenWeighted => p.yes_capital + p.no_capital > 0
            && p.yes_capital > p.no_capital,
        VotingConfig::Quadratic => p.yes_community + p.no_community > 0
            && p.yes_community > p.no_community,
        VotingConfig::DualChamber { capital_threshold, community_threshold } => {
            &&& p.yes_capital + p.no_capital > 0
            &&& p.yes_capital * 100 >= (p.yes_capital + p.no_capital) * capital_threshold
            &&& p.yes_community + p.no_community > 0
            &&& p.yes_community * 100
                >= (p.yes_community + p.no_community) * community_threshold
        },
    }
}

/// A proposal passes when quorum is met and the mode's pass rule holds.
pub open spec fn spec_proposal_passes(dao: Dao, p: Proposal) -> bool {
    spec_quorum_met(dao, p) && spec_vote_passes(dao.voting_config, p)
}

/// Whether `p` meets quorum under `dao`'s configuration.
pub fn quorum_met(dao: &Dao, p: &Proposal) -> (r: bool)
    ensures
        r == spec_quorum_met(*dao, *p),
{
    proof {
        assert((p.commit_count as u128) * (dao.quorum_percentage as u128)
            <= 0xFFFF_FFFF_FFFF_FFFF * 255) by (nonlinear_arith)
            requires
                p.commit_count <= 0xFFFF_FFFF_FFFF_FFFFu64,
                dao.quorum_percentage <= 255u8,
        ;
    }
    p.commit_count > 0
        && (p.reveal_count as u128) * 100 >= (p.commit_count as u128) * (dao.quorum_percentage as u128)
}

/// Whether `p`'s revealed tallies satisfy the pass rule of `cfg`.
pub fn vote_passes(cfg: &VotingConfig, p: &Proposal) -> (r: bool)
    ensures
        r == spec_vote_passes(*cfg, *p),
{
    match cfg {
        VotingConfig::TokenWeighted => {
            let total: u128 = p.yes_capital as u128 + p.no_capital as u128;
            total > 0 && p.yes_capital > p.no_capital
        },
        VotingConfig::Quadratic => {
            let total: u128 = p.yes_community as u128 + p.no_community as u128;
            total > 0 && p.yes_community > p.no_community
        },
        VotingConfig::DualChamber { capital_threshold, community_threshold } => {
            let cap_total: u128 = p.yes_capital as u128 + p.no_capital as u128;
            let com_total: u128 = p.yes_community as u128 + p.no_community as u128;
            proof {
                assert(cap_total * (*capital_threshold as u128)
                    <= 0x3_FFFF_FFFF_FFFF_FFFE * 255) by (nonlinear_arith)
                    requires
                        cap_total <= 0x1_FFFF_FFFF_FFFF_FFFEu128,
                        *capital_threshold <= 255u8,
                ;
                assert(com_total * (*community_threshold as u128)
                    <= 0x3_FFFF_FFFF_FFFF_FFFE * 255) by (nonlinear_arith)
                    requires
                        com_total <= 0x1_FFFF_FFFF_FFFF_FFFEu128,
                        *community_threshold <= 255u8,
                ;
            }
            let capital_passes = cap_total > 0
                && (p.yes_capital as u128) * 100 >= cap_total * (*capital_threshold as u128);
            let community_passes = com_total > 0
                && (p.yes_community as u128) * 100 >= com_total * (*community_threshold as u128);
            capital_passes && community_passes
        },
    }
}

/// The first error `finalize_proposal` reports, or `None`: the reveal
/// window must have elapsed, the proposal must still be in its voting
/// state (finalizing twice fails), and on a pass the unlock timestamp
/// must fit the clock's width.
pub open spec fn finalize_error(dao: Dao, p: Proposal, now: int) -> Option<Error> {
    if now < p.reveal_end {
        Some(Error::RevealStillOpen)
    } else if p.status != ProposalStatus::Voting {
        Some(Error::AlreadyFinalized)
    } else if spec_proposal_passes(dao, p)
        && now + dao.execution_delay_seconds > i64::MAX {
        Some(Error::Overflow)
    } else {
        None
    }
}

/// Finalizes a proposal once its reveal window has elapsed.  Anyone may
/// call.  On a pass the status becomes `Passed` and the timelock starts:
/// execution unlocks at `now` plus the DAO's execution delay.  On a fail
/// the status becomes `Failed` and the unlock timestamp keeps its zero
/// default.  Either way the tallies and counters stay exactly as the
/// reveals left them, so the outcome is auditable from the stored state.
pub fn finalize_proposal(dao: &Dao, p: &mut Proposal, now: i64) -> (r: Result<bool, Error>)
    requires
        dao.wf(),
    ensures
        match r {
            Ok(passed) => {
                &&& finalize_error(*dao, *old(p), now as int) is None
                &&& passed == spec_proposal_passes(*dao, *old(p))
                &&& passed ==> *final(p) == Proposal {
                    status: ProposalStatus::Passed,
                    execution_unlocks_at: (now + dao.execution_delay_seconds) as i64,
                    ..*old(p)
                }
                &&& !passed ==> *final(p) == Proposal {
                    status: ProposalStatus::Failed,
                    ..*old(p)
                }
            },
            Err(e) => {
                &&& *final(p) == *old(p)
                &&& Some(e) == finalize_error(*dao, *old(p), now as int)
            },
        },
{
    if now < p.reveal_end {
        return Err(Error::RevealStillOpen);
    }
    if !matches!(p.status, ProposalStatus::Voting) {
        return Err(Error::AlreadyFinalized);
    }
    let passed = quorum_met(dao, p) && vote_passes(&dao.voting_config, p);
    if passed {
        if now > i64::MAX - dao.execution_delay_seconds {
            return Err(Error::Overflow);
        }
        p.status = ProposalStatus::Passed;
        p.execution_unlocks_at = now + dao.execution_delay_seconds;
    } else {
        p.status = ProposalStatus::Failed;
    }
    Ok(passed)
}

/// What a record contributes to the yes-capital tally.
pub open spec fn yes_capital_of(r: VoterRecord) -> int {
    if r.has_revealed && r.voted_yes {
        r.capital_weight as int
    } else {
        0
    }
}

/// What a record contributes to the no-capital tally.
pub open spec fn no_capital_of(r: VoterRecord) -> int {
    if r.has_revealed && !r.voted_yes {
        r.capital_weight as int
    } else {
        0
    }
}

/// What a record contributes to the yes-community tally.
pub open spec fn yes_community_of(r: VoterRecord) -> int {
    if r.has_revealed && r.voted_yes {
        r.community_weight as int
    } else {
        0
    }
}

/// What a record contributes to the no-community tally.
pub open spec fn no_community_of(r: VoterRecord) -> int {
    if r.has_revealed && !r.voted_yes {
        r.community_weight as int
    } else {
        0
    }
}

/// Sum of the yes-capital contributions of a sequence of voter records.
pub open spec fn yes_capital_sum(rs: Seq<VoterRecord>) -> int
    decreases rs.len(),
{
    if rs.len() == 0 {
        0
    } else {
        yes_capital_sum(rs.drop_last()) + yes_capital_of(rs.last())
    }
}

/// Sum of the no-capital contributions of a sequence of voter records.
pub open spec fn no_capital_sum(rs: Seq<VoterRecord>) -> int
    decreases rs.len(),
{
    if rs.len() == 0 {
        0
    } else {
        no_capital_sum(rs.drop_last()) + no_capital_of(rs.last())
    }
}

/// Sum of the yes-community contributions of a sequence of voter records.
pub open spec fn yes_community_sum(rs: Seq<VoterRecord>) -> int
    decreases rs.len(),
{
    if rs.len() == 0 {
        0
    } else {
        yes_community_sum(rs.drop_last()) + yes_community_of(rs.last())
    }
}

/// Sum of the no-community contributions of a sequence of voter records.
pub open spec fn no_community_sum(rs: Seq<VoterRecord>) -> int
    decreases rs.len(),
{
    if rs.len() == 0 {
        0
    } else {
        no_community_sum(rs.drop_last()) + no_community_of(rs.last())
    }
}

/// Each of a proposal's four tallies equals the sum of the snapshotted
/// weights of the voters in `rs` who revealed that choice.
pub open spec fn tallies_match(p: Proposal, rs: Seq<VoterRecord>) -> bool {
    &&& p.yes_capital == yes_capital_sum(rs)
    &&& p.no_capital == no_capital_sum(rs)
    &&& p.yes_community == yes_community_sum(rs)
    &&& p.no_community == no_community_sum(rs)
}

/// Replacing one record changes each sum by exactly the difference of
/// that record's contribution.
proof fn lemma_sums_update(rs: Seq<VoterRecord>, i: int, r2: VoterRecord)
    requires
        0 <= i < rs.len(),
    ensures
        yes_capital_sum(rs.update(i, r2))
            == yes_capital_sum(rs) - yes_capital_of(rs[i]) + yes_capital_of(r2),
        no_capital_sum(rs.update(i, r2))
            == no_capital_sum(rs) - no_capital_of(rs[i]) + no_capital_of(r2),
        yes_community_sum(rs.update(i, r2))
            == yes_community_sum(rs) - yes_community_of(rs[i]) + yes_community_of(r2),
        no_community_sum(rs.update(i, r2))
            == no_community_sum(rs) - no_community_of(rs[i]) + no_community_of(r2),
    decreases rs.len(),
{
    let u = rs.update(i, r2);
    if i == rs.len() - 1 {
        assert(u.drop_last() =~= rs.drop_last());
        assert(u.last() == r2);
    } else {
        assert(u.drop_last() =~= rs.drop_last().update(i, r2));
        assert(u.last() == rs.last());
        lemma_sums_update(rs.drop_last(), i, r2);
    }
}

/// A proposal whose four tallies are zero matches any set of voter
/// records none of which has revealed — the state right after creation,
/// however many commits have happened.
pub proof fn lemma_tallies_match_unrevealed(p: Proposal, rs: Seq<VoterRecord>)
    requires
        p.yes_capital == 0,
        p.no_capital == 0,
        p.yes_community == 0,
        p.no_community == 0,
        forall|i: int| 0 <= i < rs.len() ==> !(#[trigger] rs[i]).has_revealed,
    ensures
        tallies_match(p, rs),
    decreases rs.len(),
{
    if rs.len() > 0 {
        assert(rs.last() == rs[rs.len() - 1]);
        assert(forall|i: int| 0 <= i < rs.drop_last().len()
            ==> #[trigger] rs.drop_last()[i] == rs[i]);
        lemma_tallies_match_unrevealed(p, rs.drop_last());
    }
}

/// Adding a record that has not revealed — a fresh commit — changes no
/// sum, so the tallies still match.
pub proof fn lemma_commit_preserves_tallies(p: Proposal, rs: Seq<VoterRecord>, r: VoterRecord)
    requires
        tallies_match(p, rs),
        !r.has_revealed,
    ensures
        tallies_match(p, rs.push(r)),
{
    assert(rs.push(r).drop_last() =~= rs);
    assert(rs.push(r).last() == r);
}

/// The tally accounting law: when a proposal's tallies equal the sums of
/// the snapshotted weights of the voters who revealed each choice, one
/// successful reveal — moving record `i` as `reveal_vote` does — keeps
/// them equal, and no tally decreases.  By induction from the all-zero
/// state at creation, after any series of commits and reveals each tally
/// equals the sum of the snapshotted weights of the voters who revealed
/// that choice.
pub proof fn lemma_reveal_preserves_tallies(
    p1: Proposal,
    p2: Proposal,
    r2: VoterRecord,
    rs: Seq<VoterRecord>,
    i: int,
    vote: bool,
)
    requires
        tallies_match(p1, rs),
        0 <= i < rs.len(),
        !rs[i].has_revealed,
        reveal_transition(p1, rs[i], p2, r2, vote),
        vote ==> p1.yes_capital + rs[i].capital_weight <= u64::MAX
            && p1.yes_community + rs[i].community_weight <= u64::MAX,
        !vote ==> p1.no_capital + rs[i].capital_weight <= u64::MAX
            && p1.no_community + rs[i].community_weight <= u64::MAX,
    ensures
        tallies_match(p2, rs.update(i, r2)),
        p2.yes_capital >= p1.yes_capital,
        p2.no_capital >= p1.no_capital,
        p2.yes_community >= p1.yes_community,
        p2.no_community >= p1.no_community,
{
    lemma_sums_update(rs, i, r2);
}

} // verus!
