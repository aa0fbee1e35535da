//! The data model: DAO configuration, proposals, per-voter records,
//! one-shot delegations, and the error taxonomy of every operation.

use vstd::prelude::*;
use crate::keys::{Pubkey, is_default_key};

verus! {

/// How votes are weighed when a proposal is finalized.
#[derive(Clone, Copy, PartialEq, Eq, Structural, Debug)]
pub enum VotingConfig {
    /// Weight is the raw token balance; strict majority wins.
    TokenWeighted,
    /// Weight is the floor square root of the balance; strict majority wins.
    Quadratic,
    /// Both chambers must independently clear their percentage threshold.
    DualChamber { capital_threshold: u8, community_threshold: u8 },
}

/// Thresholds of a dual-chamber config lie in [1, 100]; the other modes
/// carry no parameters.
pub open spec fn valid_voting_config(cfg: VotingConfig) -> bool {
    match cfg {
        VotingConfig::DualChamber { capital_threshold, community_threshold } =>
            1 <= capital_threshold <= 100 && 1 <= community_threshold <= 100,
        _ => true,
    }
}

/// Lifecycle state of a proposal.
#[derive(Clone, Copy, PartialEq, Eq, Structural, Debug)]
pub enum ProposalStatus {
    Voting,
    Passed,
    Failed,
    Cancelled,
    Vetoed,
}

/// The kind of guarded treasury action a proposal may carry.
#[derive(Clone, Copy, PartialEq, Eq, Structural, Debug)]
pub enum TreasuryActionType {
    SendSol,
    SendToken,
    CustomCPI,
}

/// A guarded treasury action, fixed at proposal creation.
#[derive(Clone, Copy, Debug)]
pub struct TreasuryAction {
    pub action_type: TreasuryActionType,
    pub amount_lamports: u64,
    pub recipient: Pubkey,
    pub token_mint: Option<Pubkey>,
}

/// One DAO's configuration, immutable after creation.
#[derive(Clone, Debug)]
pub struct Dao {
    pub authority: Pubkey,
    pub dao_name: String,
    pub governance_token: Pubkey,
    pub quorum_percentage: u8,
    pub governance_token_required: u64,
    pub reveal_window_seconds: i64,
    pub execution_delay_seconds: i64,
    pub voting_config: VotingConfig,
    pub proposal_count: u64,
    pub migrated_from_realms: Option<Pubkey>,
}

impl Dao {
    /// What every configuration operation establishes and every other
    /// operation may assume.
    pub open spec fn wf(&self) -> bool {
        &&& self.dao_name@.len() <= 64
        &&& 1 <= self.quorum_percentage <= 100
        &&& self.reveal_window_seconds >= crate::MIN_REVEAL_WINDOW_SECONDS
        &&& self.execution_delay_seconds >= 0
        &&& valid_voting_config(self.voting_config)
    }
}

/// One proposal's lifecycle state and running tallies.
#[derive(Clone, Debug)]
pub struct Proposal {
    pub dao: Pubkey,
    pub proposer: Pubkey,
    pub proposal_id: u64,
    pub title: String,
    pub description: String,
    pub status: ProposalStatus,
    pub voting_end: i64,
    pub reveal_end: i64,
    pub yes_capital: u64,
    pub no_capital: u64,
    pub yes_community: u64,
    pub no_community: u64,
    pub commit_count: u64,
    pub reveal_count: u64,
    pub treasury_action: Option<TreasuryAction>,
    pub execution_unlocks_at: i64,
    pub is_executed: bool,
}

/// One voter's commitment and snapshotted weights for one proposal,
/// created at commit time and mutated exactly once, at reveal time.
#[derive(Clone, Copy, Debug)]
pub struct VoterRecord {
    pub voter: Pubkey,
    pub proposal: Pubkey,
    pub commitment: [u8; 32],
    pub capital_weight: u64,
    pub community_weight: u64,
    pub has_committed: bool,
    pub has_revealed: bool,
    pub voted_yes: bool,
    pub voter_reveal_authority: Option<Pubkey>,
}

impl Default for VoterRecord {
    /// A blank record, as the host hands to the first commit for a
    /// (proposal, voter) pair.
    fn default() -> (r: Self)
        ensures
            !r.has_committed,
            !r.has_revealed,
            !r.voted_yes,
            r.capital_weight == 0,
            r.community_weight == 0,
            r.voter_reveal_authority is None,
    {
        VoterRecord {
            voter: Pubkey { bytes: [0u8; 32] },
            proposal: Pubkey { bytes: [0u8; 32] },
            commitment: [0u8; 32],
            capital_weight: 0,
            community_weight: 0,
            has_committed: false,
            has_revealed: false,
            voted_yes: false,
            voter_reveal_authority: None,
        }
    }
}

/// A one-shot grant of voting weight from a delegator to a delegatee for a
/// single proposal.  It carries only weight, never a vote.
#[derive(Clone, Copy, Debug)]
pub struct VoteDelegation {
    pub delegator: Pubkey,
    pub delegatee: Pubkey,
    pub proposal: Pubkey,
    pub delegated_capital: u64,
    pub delegated_community: u64,
    pub is_used: bool,
}

/// The fixed-layout voting-power record a third-party governance platform
/// reads: realm, governing token mint, owner, weight, optional expiry,
/// optional action tag and target, and 8 reserved bytes.
#[derive(Clone, Copy, Debug)]
pub struct VoterWeightRecord {
    pub realm: Pubkey,
    pub governing_token_mint: Pubkey,
    pub governing_token_owner: Pubkey,
    pub voter_weight: u64,
    pub voter_weight_expiry: Option<u64>,
    pub weight_action: Option<u8>,
    pub weight_action_target: Option<Pubkey>,
    pub reserved: [u8; 8],
}

/// Everything an operation can fail with.  Every error aborts the whole
/// request: an operation that returns an error leaves all state unchanged.
#[derive(Clone, Copy, PartialEq, Eq, Structural, Debug)]
pub enum Error {
    NameTooLong,
    InvalidQuorum,
    RevealWindowTooShort,
    VotingDurationTooShort,
    InvalidExecutionDelay,
    TitleTooLong,
    DescriptionTooLong,
    VotingNotOpen,
    VotingClosed,
    AlreadyCommitted,
    RevealTooEarly,
    RevealClosed,
    RevealStillOpen,
    NotCommitted,
    AlreadyRevealed,
    CommitmentMismatch,
    AlreadyFinalized,
    InsufficientTokens,
    NotAuthorizedToReveal,
    InvalidThreshold,
    Overflow,
    ProposalNotCancellable,
    ProposalNotPassed,
    AlreadyExecuted,
    ExecutionTimelockActive,
    VetoWindowExpired,
    DelegationAlreadyUsed,
    NotDelegatee,
    WrongProposal,
    InvalidTreasuryAction,
    TokenMintRequired,
    TreasuryRecipientMismatch,
    InvalidTreasuryTokenAuthority,
    InvalidTokenMint,
    RecipientOwnerMismatch,
    InvalidTokenAccount,
    GoverningMintMismatch,
}

/// The shape invariant a treasury action must satisfy, checked at proposal
/// creation and re-checked at execution: transfers move a positive amount
/// to a non-default recipient, a token transfer names its mint, a custom
/// call moves nothing.
pub open spec fn treasury_action_error(action: TreasuryAction) -> Option<Error> {
    match action.action_type {
        TreasuryActionType::SendSol => if action.amount_lamports == 0 {
            Some(Error::InvalidTreasuryAction)
        } else if action.token_mint is Some {
            Some(Error::InvalidTreasuryAction)
        } else if is_default_key(action.recipient) {
            Some(Error::InvalidTreasuryAction)
        } else {
            None
        },
        TreasuryActionType::SendToken => if action.amount_lamports == 0 {
            Some(Error::InvalidTreasuryAction)
        } else if action.token_mint is None {
            Some(Error::TokenMintRequired)
        } else if is_default_key(action.recipient) {
            Some(Error::InvalidTreasuryAction)
        } else {
            None
        },
        TreasuryActionType::CustomCPI => if action.amount_lamports != 0 {
            Some(Error::InvalidTreasuryAction)
        } else if action.token_mint is Some {
            Some(Error::InvalidTreasuryAction)
        } else if is_default_key(action.recipient) {
            Some(Error::InvalidTreasuryAction)
        } else {
            None
        },
    }
}

/// Checks the shape invariant of a treasury action.
pub fn validate_treasury_action(action: &TreasuryAction) -> (r: Result<(), Error>)
    ensures
        match r {
            Ok(()) => treasury_action_error(*action) is None,
            Err(e) => treasury_action_error(*action) == Some(e),
        },
{
    match action.action_type {
        TreasuryActionType::SendSol => {
            if action.amount_lamports == 0 {
                return Err(Error::InvalidTreasuryAction);
            }
            if action.token_mint.is_some() {
                return Err(Error::InvalidTreasuryAction);
            }
            if crate::keys::key_is_default(&action.recipient) {
                return Err(Error::InvalidTreasuryAction);
            }
            Ok(())
        },
        TreasuryActionType::SendToken => {
            if action.amount_lamports == 0 {
                return Err(Error::InvalidTreasuryAction);
            }
            if action.token_mint.is_none() {
                return Err(Error::TokenMintRequired);
            }
            if crate::keys::key_is_default(&action.recipient) {
                return Err(Error::InvalidTreasuryAction);
            }
            Ok(())
        },
        TreasuryActionType::CustomCPI => {
            if action.amount_lamports != 0 {
                return Err(Error::InvalidTreasuryAction);
            }
            if action.token_mint.is_some() {
                return Err(Error::InvalidTreasuryAction);
            }
            if crate::keys::key_is_default(&action.recipient) {
                return Err(Error::InvalidTreasuryAction);
            }
            Ok(())
        },
    }
}

} // verus!
