//! Proposal lifecycle: creation, authority cancel while voting is open,
//! and authority veto during the timelock window.

use vstd::prelude::*;
use vstd::string::*;
use crate::keys::Pubkey;
use crate::state::{
    Dao, Error, Proposal, ProposalStatus, TreasuryAction, treasury_action_error,
    validate_treasury_action,
};

verus! {

/// The first error `create_proposal` reports, in the order the checks
/// run, or `None` when the proposal can be created.
pub open spec fn create_proposal_error(
    dao: Dao,
    title: Seq<char>,
    description: Seq<char>,
    voting_duration_seconds: i64,
    treasury_action: Option<TreasuryAction>,
    now: int,
) -> Option<Error> {
    if title.len() > 128 {
        Some(Error::TitleTooLong)
    } else if description.len() > 1024 {
        Some(Error::DescriptionTooLong)
    } else if voting_duration_seconds < crate::MIN_VOTING_DURATION_SECONDS {
        Some(Error::VotingDurationTooShort)
    } else if treasury_action is Some && treasury_action_error(treasury_action->0) is Some {
        treasury_action_error(treasury_action->0)
    } else if now + voting_duration_seconds > i64::MAX {
        Some(Error::Overflow)
    } else if now + voting_duration_seconds + dao.reveal_window_seconds > i64::MAX {
        Some(Error::Overflow)
    } else if dao.proposal_count == u64::MAX {
        Some(Error::Overflow)
    } else {
        None
    }
}

/// Creates a proposal against `dao`: title at most 128 characters,
/// description at most 1024, voting duration at least the minimum, and a
/// well-shaped treasury action if one is attached.  On success the DAO's
/// proposal counter advances by one, the voting window closes at
/// `now + duration`, the reveal window at `voting_end + reveal window`,
/// and every tally and counter starts at zero.
pub fn create_proposal(
    dao: &mut Dao,
    dao_key: Pubkey,
    proposer: Pubkey,
    title: String,
    description: String,
    voting_duration_seconds: i64,
    treasury_action: Option<TreasuryAction>,
    now: i64,
) -> (r: Result<Proposal, Error>)
    requires
        old(dao).wf(),
    ensures
        match r {
            Ok(p) => {
                &&& create_proposal_error(
                    *old(dao),
                    title@,
                    description@,
                    voting_duration_seconds,
                    treasury_action,
                    now as int,
                ) is None
                &&& *final(dao) == Dao {
                    proposal_count: (old(dao).proposal_count + 1) as u64,
                    ..*old(dao)
                }
                &&& p.dao == dao_key
                &&& p.proposer == proposer
                &&& p.proposal_id == old(dao).proposal_count
                &&& p.title@ == title@
                &&& p.description@ == description@
                &&& p.status == ProposalStatus::Voting
                &&& p.voting_end == now + voting_duration_seconds
                &&& p.reveal_end == now + voting_duration_seconds
                    + old(dao).reveal_window_seconds
                &&& p.yes_capital == 0
                &&& p.no_capital == 0
                &&& p.yes_community == 0
                &&& p.no_community == 0
                &&& p.commit_count == 0
                &&& p.reveal_count == 0
                &&& p.treasury_action == treasury_action
                &&& p.execution_unlocks_at == 0
                &&& !p.is_executed
            },
            Err(e) => {
                &&& *final(dao) == *old(dao)
                &&& Some(e) == create_proposal_error(
                    *old(dao),
                    title@,
                    description@,
                    voting_duration_seconds,
                    treasury_action,
                    now as int,
                )
            },
        },
{
    if title.as_str().unicode_len() > 128 {
        return Err(Error::TitleTooLong);
    }
    if description.as_str().unicode_len() > 1024 {
        return Err(Error::DescriptionTooLong);
    }
    if voting_duration_seconds < crate::MIN_VOTING_DURATION_SECONDS {
        return Err(Error::VotingDurationTooShort);
    }
    if let Some(action) = &treasury_action {
        if let Err(e) = validate_treasury_action(action) {
            return Err(e);
        }
    }
    if now > i64::MAX - voting_duration_seconds {
        return Err(Error::Overflow);
    }
    let voting_end: i64 = now + voting_duration_seconds;
    if voting_end > i64::MAX - dao.reveal_window_seconds {
        return Err(Error::Overflow);
    }
    let reveal_end: i64 = voting_end + dao.reveal_window_seconds;
    if dao.proposal_count == u64::MAX {
        return Err(Error::Overflow);
    }
    let proposal_id = dao.proposal_count;
    dao.proposal_count = dao.proposal_count + 1;
    Ok(Proposal {
        dao: dao_key,
        proposer,
        proposal_id,
        title,
        description,
        status: ProposalStatus::Voting,
        voting_end,
        reveal_end,
        yes_capital: 0,
        no_capital: 0,
        yes_community: 0,
        no_community: 0,
        commit_count: 0,
        reveal_count: 0,
        treasury_action,
        execution_unlocks_at: 0,
        is_executed: false,
    })
}

/// Cancels a proposal.  Only a proposal still in its voting phase can be
/// cancelled; cancellation is terminal.
pub fn cancel_proposal(p: &mut Proposal) -> (r: Result<(), Error>)
    ensures
        match r {
            Ok(()) => {
                &&& old(p).status == ProposalStatus::Voting
                &&& *final(p) == Proposal { status: ProposalStatus::Cancelled, ..*old(p) }
            },
            Err(e) => {
                &&& old(p).status != ProposalStatus::Voting
                &&& e == Error::ProposalNotCancellable
                &&& *final(p) == *old(p)
            },
        },
{
    if !matches!(p.status, ProposalStatus::Voting) {
        return Err(Error::ProposalNotCancellable);
    }
    p.status = ProposalStatus::Cancelled;
    Ok(())
}

/// The first error `veto_proposal` reports, or `None` when the veto is
/// allowed: the proposal must have passed, must not have executed, and
/// the timelock must still be running (`now < execution_unlocks_at`).
pub open spec fn veto_error(p: Proposal, now: int) -> Option<Error> {
    if p.status != ProposalStatus::Passed {
        Some(Error::ProposalNotPassed)
    } else if p.is_executed {
        Some(Error::AlreadyExecuted)
    } else if now >= p.execution_unlocks_at {
        Some(Error::VetoWindowExpired)
    } else {
        None
    }
}

/// Vetoes a passed proposal during its timelock window.  The veto is
/// possible up to, but not at, the instant the timelock expires; after
/// that the authority can no longer block execution.
pub fn veto_proposal(p: &mut Proposal, now: i64) -> (r: Result<(), Error>)
    ensures
        match r {
            Ok(()) => {
                &&& veto_error(*old(p), now as int) is None
                &&& *final(p) == Proposal { status: ProposalStatus::Vetoed, ..*old(p) }
            },
            Err(e) => {
                &&& Some(e) == veto_error(*old(p), now as int)
                &&& *final(p) == *old(p)
            },
        },
{
    if !matches!(p.status, ProposalStatus::Passed) {
        return Err(Error::ProposalNotPassed);
    }
    if p.is_executed {
        return Err(Error::AlreadyExecuted);
    }
    if now >= p.execution_unlocks_at {
        return Err(Error::VetoWindowExpired);
    }
    p.status = ProposalStatus::Vetoed;
    Ok(())
}

} // verus!
