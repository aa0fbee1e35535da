//! DAO configuration: creation and migration from an external governance
//! instance.  A configuration is immutable once created; a re-migration
//! produces a new instance.

use vstd::prelude::*;
use vstd::string::*;
use crate::keys::Pubkey;
use crate::state::{Dao, Error, VotingConfig, valid_voting_config};

verus! {

/// The first invalid configuration parameter, in the order the checks run,
/// or `None` when all parameters are acceptable.
pub open spec fn dao_config_error(
    name: Seq<char>,
    quorum_percentage: u8,
    reveal_window_seconds: i64,
    execution_delay_seconds: i64,
    cfg: VotingConfig,
) -> Option<Error> {
    if name.len() > 64 {
        Some(Error::NameTooLong)
    } else if !(1 <= quorum_percentage <= 100) {
        Some(Error::InvalidQuorum)
    } else if reveal_window_seconds < crate::MIN_REVEAL_WINDOW_SECONDS {
        Some(Error::RevealWindowTooShort)
    } else if execution_delay_seconds < 0 {
        Some(Error::InvalidExecutionDelay)
    } else if !valid_voting_config(cfg) {
        Some(Error::InvalidThreshold)
    } else {
        None
    }
}

/// Checks that dual-chamber thresholds lie in [1, 100].
pub fn validate_voting_config(cfg: &VotingConfig) -> (r: Result<(), Error>)
    ensures
        match r {
            Ok(()) => valid_voting_config(*cfg),
            Err(e) => !valid_voting_config(*cfg) && e == Error::InvalidThreshold,
        },
{
    match cfg {
        VotingConfig::DualChamber { capital_threshold, community_threshold } => {
            if !(*capital_threshold > 0 && *capital_threshold <= 100) {
                return Err(Error::InvalidThreshold);
            }
            if !(*community_threshold > 0 && *community_threshold <= 100) {
                return Err(Error::InvalidThreshold);
            }
            Ok(())
        },
        _ => Ok(()),
    }
}

/// Creates a DAO configuration: name at most 64 characters, quorum in
/// [1, 100], reveal window at least the minimum, non-negative execution
/// delay, valid voting config.  The proposal counter starts at zero.
pub fn initialize_dao(
    authority: Pubkey,
    governance_token: Pubkey,
    dao_name: String,
    quorum_percentage: u8,
    governance_token_required: u64,
    reveal_window_seconds: i64,
    execution_delay_seconds: i64,
    voting_config: VotingConfig,
) -> (r: Result<Dao, Error>)
    ensures
        match r {
            Ok(dao) => {
                &&& dao_config_error(
                    dao_name@,
                    quorum_percentage,
                    reveal_window_seconds,
                    execution_delay_seconds,
                    voting_config,
                ) is None
                &&& dao.wf()
                &&& dao.authority == authority
                &&& dao.dao_name@ == dao_name@
                &&& dao.governance_token == governance_token
                &&& dao.quorum_percentage == quorum_percentage
                &&& dao.governance_token_required == governance_token_required
                &&& dao.reveal_window_seconds == reveal_window_seconds
                &&& dao.execution_delay_seconds == execution_delay_seconds
                &&& dao.voting_config == voting_config
                &&& dao.proposal_count == 0
                &&& dao.migrated_from_realms is None
            },
            Err(e) => Some(e) == dao_config_error(
                dao_name@,
                quorum_percentage,
                reveal_window_seconds,
                execution_delay_seconds,
                voting_config,
            ),
        },
{
    if dao_name.as_str().unicode_len() > 64 {
        return Err(Error::NameTooLong);
    }
    if !(quorum_percentage > 0 && quorum_percentage <= 100) {
        return Err(Error::InvalidQuorum);
    }
    if reveal_window_seconds < crate::MIN_REVEAL_WINDOW_SECONDS {
        return Err(Error::RevealWindowTooShort);
    }
    if execution_delay_seconds < 0 {
        return Err(Error::InvalidExecutionDelay);
    }
    validate_voting_config(&voting_config)?;
    Ok(Dao {
        authority,
        dao_name,
        governance_token,
        quorum_percentage,
        governance_token_required,
        reveal_window_seconds,
        execution_delay_seconds,
        voting_config,
        proposal_count: 0,
        migrated_from_realms: None,
    })
}

/// Creates a DAO configuration that mirrors an existing external
/// governance instance.  Validation is identical to `initialize_dao`;
/// the minimum balance is forced to zero and the configuration is tagged
/// with the instance it was migrated from (informational only).
pub fn migrate_from_realms(
    authority: Pubkey,
    governance_token: Pubkey,
    dao_name: String,
    realms_governance: Pubkey,
    quorum_percentage: u8,
    reveal_window_seconds: i64,
    execution_delay_seconds: i64,
    voting_config: VotingConfig,
) -> (r: Result<Dao, Error>)
    ensures
        match r {
            Ok(dao) => {
                &&& dao_config_error(
                    dao_name@,
                    quorum_percentage,
                    reveal_window_seconds,
                    execution_delay_seconds,
                    voting_config,
                ) is None
                &&& dao.wf()
                &&& dao.authority == authority
                &&& dao.dao_name@ == dao_name@
                &&& dao.governance_token == governance_token
                &&& dao.quorum_percentage == quorum_percentage
                &&& dao.governance_token_required == 0
                &&& dao.reveal_window_seconds == reveal_window_seconds
                &&& dao.execution_delay_seconds == execution_delay_seconds
                &&& dao.voting_config == voting_config
                &&& dao.proposal_count == 0
                &&& dao.migrated_from_realms == Some(realms_governance)
            },
            Err(e) => Some(e) == dao_config_error(
                dao_name@,
                quorum_percentage,
                reveal_window_seconds,
                execution_delay_seconds,
                voting_config,
            ),
        },
{
    if dao_name.as_str().unicode_len() > 64 {
        return Err(Error::NameTooLong);
    }
    if !(quorum_percentage > 0 && quorum_percentage <= 100) {
        return Err(Error::InvalidQuorum);
    }
    if reveal_window_seconds < crate::MIN_REVEAL_WINDOW_SECONDS {
        return Err(Error::RevealWindowTooShort);
    }
    if execution_delay_seconds < 0 {
        return Err(Error::InvalidExecutionDelay);
    }
    validate_voting_config(&voting_config)?;
    Ok(Dao {
        authority,
        dao_name,
        governance_token,
        quorum_percentage,
        governance_token_required: 0,
        reveal_window_seconds,
        execution_delay_seconds,
        voting_config,
        proposal_count: 0,
        migrated_from_realms: Some(realms_governance),
    })
}

} // verus!
