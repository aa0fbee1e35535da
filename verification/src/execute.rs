//! Timelock-gated execution of a passed proposal's treasury action.
//!
//! Execution is permissionless once the timelock has elapsed and the
//! authority has not vetoed.  The executed flag flips before the value
//! transfer is handed to the host, so the action is attempted at most
//! once even if the downstream transfer fails and the caller retries.
//! The payload shape is re-validated here (defense in depth against state
//! corrupted between creation and execution) and the designated recipient
//! is matched against the caller-supplied target before handing off.

use vstd::prelude::*;
use crate::keys::Pubkey;
use crate::state::{
    Error, Proposal, ProposalStatus, TreasuryAction, TreasuryActionType,
    treasury_action_error, validate_treasury_action,
};

verus! {

/// What the host read from a token account before calling `execute`:
/// the program owning the account, its data length, and the authority
/// and mint parsed from its data.
#[derive(Clone, Copy, Debug)]
pub struct TokenAccountFacts {
    pub owner_program: Pubkey,
    pub data_len: u64,
    pub authority: Pubkey,
    pub mint: Pubkey,
}

/// The accounts the caller of `execute_proposal` supplies.  The token
/// account facts matter only for a token transfer; for other actions any
/// values may stand there.
#[derive(Clone, Copy, Debug)]
pub struct ExecutionAccounts {
    pub treasury: Pubkey,
    pub treasury_recipient: Pubkey,
    pub token_program: Pubkey,
    pub treasury_token_account: TokenAccountFacts,
    pub recipient_token_account: TokenAccountFacts,
}

/// The value transfer the host must perform after a successful
/// execution, or the announcement it must publish for a custom call.
#[derive(Clone, Copy, Debug)]
pub enum TreasuryDirective {
    /// Move `amount_lamports` from the treasury to `recipient`.
    SendSolTo { recipient: Pubkey, amount_lamports: u64 },
    /// Move `amount_lamports` tokens from the supplied treasury token
    /// account to the supplied recipient token account.
    SendTokenTo { amount_lamports: u64 },
    /// Announce the custom call for an off-chain relayer; nothing moves.
    CustomCall { recipient: Pubkey },
}

/// The checks a token transfer runs, in order: the caller-supplied target
/// equals the action's recipient; both token accounts belong to the token
/// program and are at least 72 bytes; the source is held by the treasury;
/// both accounts carry the action's mint; the destination is held by the
/// action's recipient.
pub open spec fn send_token_error(
    action: TreasuryAction,
    accounts: ExecutionAccounts,
) -> Option<Error> {
    if accounts.treasury_recipient@ != action.recipient@ {
        Some(Error::TreasuryRecipientMismatch)
    } else if accounts.treasury_token_account.owner_program@ != accounts.token_program@ {
        Some(Error::InvalidTokenAccount)
    } else if accounts.recipient_token_account.owner_program@ != accounts.token_program@ {
        Some(Error::InvalidTokenAccount)
    } else if accounts.treasury_token_account.data_len < 72 {
        Some(Error::InvalidTokenAccount)
    } else if accounts.recipient_token_account.data_len < 72 {
        Some(Error::InvalidTokenAccount)
    } else if accounts.treasury_token_account.authority@ != accounts.treasury@ {
        Some(Error::InvalidTreasuryTokenAuthority)
    } else if accounts.treasury_token_account.mint@ != action.token_mint->0@ {
        Some(Error::InvalidTokenMint)
    } else if accounts.recipient_token_account.mint@ != action.token_mint->0@ {
        Some(Error::InvalidTokenMint)
    } else if accounts.recipient_token_account.authority@ != action.recipient@ {
        Some(Error::RecipientOwnerMismatch)
    } else {
        None
    }
}

/// The first error `execute_proposal` reports, or `None` when execution
/// goes ahead: the proposal passed, was not executed, the timelock has
/// elapsed, and — when an action is attached — the payload is well
/// shaped and the supplied accounts match it.
pub open spec fn execute_error(
    p: Proposal,
    accounts: ExecutionAccounts,
    now: int,
) -> Option<Error> {
    if p.status != ProposalStatus::Passed {
        Some(Error::ProposalNotPassed)
    } else if p.is_executed {
        Some(Error::AlreadyExecuted)
    } else if now < p.execution_unlocks_at {
        Some(Error::ExecutionTimelockActive)
    } else if p.treasury_action is Some {
        let action = p.treasury_action->0;
        if treasury_action_error(action) is Some {
            treasury_action_error(action)
        } else {
            match action.action_type {
                TreasuryActionType::SendSol => if accounts.treasury_recipient@
                    != action.recipient@ {
                    Some(Error::TreasuryRecipientMismatch)
                } else {
                    None
                },
                TreasuryActionType::SendToken => send_token_error(action, accounts),
                TreasuryActionType::CustomCPI => if accounts.treasury_recipient@
                    != action.recipient@ {
                    Some(Error::TreasuryRecipientMismatch)
                } else {
                    None
                },
            }
        }
    } else {
        None
    }
}

/// The at-most-once law of execution: a passed proposal whose executed
/// flag is set — as a successful `execute_proposal` leaves it — fails
/// every further execution attempt with `AlreadyExecuted`, whatever
/// accounts are supplied and whatever became of the first transfer
/// downstream.
pub proof fn lemma_execute_at_most_once(p: Proposal, accounts: ExecutionAccounts, now: int)
    requires
        p.status == ProposalStatus::Passed,
        p.is_executed,
    ensures
        execute_error(p, accounts, now) == Some(Error::AlreadyExecuted),
{
}

/// The directive a successful execution hands to the host, as a function
/// of the attached action.
pub open spec fn spec_directive(action_opt: Option<TreasuryAction>) -> Option<TreasuryDirective> {
    match action_opt {
        None => None,
        Some(action) => match action.action_type {
            TreasuryActionType::SendSol => Some(TreasuryDirective::SendSolTo {
                recipient: action.recipient,
                amount_lamports: action.amount_lamports,
            }),
            TreasuryActionType::SendToken => Some(TreasuryDirective::SendTokenTo {
                amount_lamports: action.amount_lamports,
            }),
            TreasuryActionType::CustomCPI => Some(TreasuryDirective::CustomCall {
                recipient: action.recipient,
            }),
        },
    }
}

/// Executes a passed proposal once its timelock has elapsed.  On success
/// the executed flag is set — the only state change — and the returned
/// directive tells the host what to transfer; a proposal without an
/// action executes as a no-op.  Any error leaves the proposal unchanged,
/// and a second call after a success fails with `AlreadyExecuted`
/// whatever became of the first transfer downstream.
pub fn execute_proposal(
    p: &mut Proposal,
    accounts: &ExecutionAccounts,
    now: i64,
) -> (r: Result<Option<TreasuryDirective>, Error>)
    ensures
        match r {
            Ok(directive) => {
                &&& execute_error(*old(p), *accounts, now as int) is None
                &&& *final(p) == Proposal { is_executed: true, ..*old(p) }
                &&& directive == spec_directive(old(p).treasury_action)
            },
            Err(e) => {
                &&& *final(p) == *old(p)
                &&& Some(e) == execute_error(*old(p), *accounts, now as int)
            },
        },
{
    if !matches!(p.status, ProposalStatus::Passed) {
        return Err(Error::ProposalNotPassed);
    }
    if p.is_executed {
        return Err(Error::AlreadyExecuted);
    }
    if now < p.execution_unlocks_at {
        return Err(Error::ExecutionTimelockActive);
    }
    let directive: Option<TreasuryDirective> = match p.treasury_action {
        None => None,
        Some(action) => {
            if let Err(e) = validate_treasury_action(&action) {
                return Err(e);
            }
            match action.action_type {
                TreasuryActionType::SendSol => {
                    if !(accounts.treasury_recipient == action.recipient) {
                        return Err(Error::TreasuryRecipientMismatch);
                    }
                    Some(TreasuryDirective::SendSolTo {
                        recipient: action.recipient,
                        amount_lamports: action.amount_lamports,
                    })
                },
                TreasuryActionType::SendToken => {
                    if !(accounts.treasury_recipient == action.recipient) {
                        return Err(Error::TreasuryRecipientMismatch);
                    }
                    if !(accounts.treasury_token_account.owner_program
                        == accounts.token_program) {
                        return Err(Error::InvalidTokenAccount);
                    }
                    if !(accounts.recipient_token_account.owner_program
                        == accounts.token_program) {
                        return Err(Error::InvalidTokenAccount);
                    }
                    if accounts.treasury_token_account.data_len < 72 {
                        return Err(Error::InvalidTokenAccount);
                    }
                    if accounts.recipient_token_account.data_len < 72 {
                        return Err(Error::InvalidTokenAccount);
                    }
                    let action_mint = match action.token_mint {
                        Some(m) => m,
                        None => {
                            return Err(Error::TokenMintRequired);
                        },
                    };
                    if !(accounts.treasury_token_account.authority == accounts.treasury) {
                        return Err(Error::InvalidTreasuryTokenAuthority);
                    }
                    if !(accounts.treasury_token_account.mint == action_mint) {
                        return Err(Error::InvalidTokenMint);
                    }
                    if !(accounts.recipient_token_account.mint == action_mint) {
                        return Err(Error::InvalidTokenMint);
                    }
                    if !(accounts.recipient_token_account.authority == action.recipient) {
                        return Err(Error::RecipientOwnerMismatch);
                    }
                    Some(TreasuryDirective::SendTokenTo {
                        amount_lamports: action.amount_lamports,
                    })
                },
                TreasuryActionType::CustomCPI => {
                    if !(accounts.treasury_recipient == action.recipient) {
                        return Err(Error::TreasuryRecipientMismatch);
                    }
                    Some(TreasuryDirective::CustomCall { recipient: action.recipient })
                },
            }
        },
    };
    p.is_executed = true;
    Ok(directive)
}

} // verus!
