use private_dao::config::{initialize_dao, migrate_from_realms, validate_voting_config};
use private_dao::execute::{ExecutionAccounts, TokenAccountFacts, TreasuryDirective, execute_proposal};
use private_dao::keys::Pubkey;
use private_dao::proposal::{cancel_proposal, create_proposal, veto_proposal};
use private_dao::state::{
    Dao, Error, Proposal, ProposalStatus, TreasuryAction, TreasuryActionType, VotingConfig,
    validate_treasury_action,
};

fn key(tag: u8) -> Pubkey {
    Pubkey { bytes: [tag; 32] }
}

fn basic_dao() -> Dao {
    initialize_dao(
        key(1),
        key(2),
        "demo".to_string(),
        50,
        0,
        5,
        100,
        VotingConfig::TokenWeighted,
    )
    .unwrap()
}

fn accounts_for(recipient: Pubkey) -> ExecutionAccounts {
    let blank = TokenAccountFacts {
        owner_program: key(0),
        data_len: 0,
        authority: key(0),
        mint: key(0),
    };
    ExecutionAccounts {
        treasury: key(9),
        treasury_recipient: recipient,
        token_program: key(10),
        treasury_token_account: blank,
        recipient_token_account: blank,
    }
}

#[test]
fn initialize_dao_validation() {
    let long_name = "x".repeat(65);
    assert_eq!(
        initialize_dao(key(1), key(2), long_name, 50, 0, 5, 0, VotingConfig::TokenWeighted)
            .unwrap_err(),
        Error::NameTooLong
    );
    assert_eq!(
        initialize_dao(key(1), key(2), "d".to_string(), 0, 0, 5, 0, VotingConfig::TokenWeighted)
            .unwrap_err(),
        Error::InvalidQuorum
    );
    assert_eq!(
        initialize_dao(key(1), key(2), "d".to_string(), 101, 0, 5, 0, VotingConfig::TokenWeighted)
            .unwrap_err(),
        Error::InvalidQuorum
    );
    assert_eq!(
        initialize_dao(key(1), key(2), "d".to_string(), 50, 0, 4, 0, VotingConfig::TokenWeighted)
            .unwrap_err(),
        Error::RevealWindowTooShort
    );
    assert_eq!(
        initialize_dao(key(1), key(2), "d".to_string(), 50, 0, 5, -1, VotingConfig::TokenWeighted)
            .unwrap_err(),
        Error::InvalidExecutionDelay
    );
    assert_eq!(
        initialize_dao(
            key(1),
            key(2),
            "d".to_string(),
            50,
            0,
            5,
            0,
            VotingConfig::DualChamber { capital_threshold: 0, community_threshold: 40 },
        )
        .unwrap_err(),
        Error::InvalidThreshold
    );
    let dao = basic_dao();
    assert_eq!(dao.proposal_count, 0);
    assert_eq!(dao.quorum_percentage, 50);
    assert!(dao.migrated_from_realms.is_none());
}

#[test]
fn migrate_keeps_provenance_and_zero_minimum() {
    let dao = migrate_from_realms(
        key(1),
        key(2),
        "mirrored".to_string(),
        key(7),
        60,
        6,
        0,
        VotingConfig::Quadratic,
    )
    .unwrap();
    assert_eq!(dao.governance_token_required, 0);
    assert_eq!(dao.migrated_from_realms, Some(key(7)));
    assert_eq!(dao.proposal_count, 0);
    assert_eq!(
        migrate_from_realms(
            key(1),
            key(2),
            "m".to_string(),
            key(7),
            101,
            6,
            0,
            VotingConfig::Quadratic,
        )
        .unwrap_err(),
        Error::InvalidQuorum
    );
}

#[test]
fn voting_config_validation() {
    assert!(validate_voting_config(&VotingConfig::TokenWeighted).is_ok());
    assert!(validate_voting_config(&VotingConfig::Quadratic).is_ok());
    assert!(validate_voting_config(&VotingConfig::DualChamber {
        capital_threshold: 1,
        community_threshold: 100,
    })
    .is_ok());
    assert_eq!(
        validate_voting_config(&VotingConfig::DualChamber {
            capital_threshold: 60,
            community_threshold: 101,
        })
        .unwrap_err(),
        Error::InvalidThreshold
    );
}

#[test]
fn create_proposal_validation_and_windows() {
    let mut dao = basic_dao();
    let long_title = "t".repeat(129);
    assert_eq!(
        create_proposal(&mut dao, key(3), key(4), long_title, "d".to_string(), 10, None, 0)
            .unwrap_err(),
        Error::TitleTooLong
    );
    let long_desc = "d".repeat(1025);
    assert_eq!(
        create_proposal(&mut dao, key(3), key(4), "t".to_string(), long_desc, 10, None, 0)
            .unwrap_err(),
        Error::DescriptionTooLong
    );
    assert_eq!(
        create_proposal(&mut dao, key(3), key(4), "t".to_string(), "d".to_string(), 4, None, 0)
            .unwrap_err(),
        Error::VotingDurationTooShort
    );
    assert_eq!(dao.proposal_count, 0);
    let p = create_proposal(
        &mut dao,
        key(3),
        key(4),
        "t".to_string(),
        "d".to_string(),
        10,
        None,
        1000,
    )
    .unwrap();
    assert_eq!(dao.proposal_count, 1);
    assert_eq!(p.proposal_id, 0);
    assert_eq!(p.status, ProposalStatus::Voting);
    assert_eq!(p.voting_end, 1010);
    assert_eq!(p.reveal_end, 1015);
    assert_eq!(
        (p.yes_capital, p.no_capital, p.yes_community, p.no_community),
        (0, 0, 0, 0)
    );
    assert_eq!((p.commit_count, p.reveal_count), (0, 0));
    assert!(!p.is_executed);
    assert_eq!(p.execution_unlocks_at, 0);
}

#[test]
fn create_proposal_rejects_clock_overflow() {
    let mut dao = basic_dao();
    assert_eq!(
        create_proposal(
            &mut dao,
            key(3),
            key(4),
            "t".to_string(),
            "d".to_string(),
            10,
            None,
            i64::MAX - 5,
        )
        .unwrap_err(),
        Error::Overflow
    );
    assert_eq!(dao.proposal_count, 0);
}

#[test]
fn treasury_action_shapes() {
    let sol = TreasuryAction {
        action_type: TreasuryActionType::SendSol,
        amount_lamports: 5,
        recipient: key(8),
        token_mint: None,
    };
    assert!(validate_treasury_action(&sol).is_ok());
    let zero_amount = TreasuryAction { amount_lamports: 0, ..sol };
    assert_eq!(
        validate_treasury_action(&zero_amount).unwrap_err(),
        Error::InvalidTreasuryAction
    );
    let default_recipient = TreasuryAction { recipient: key(0), ..sol };
    assert_eq!(
        validate_treasury_action(&default_recipient).unwrap_err(),
        Error::InvalidTreasuryAction
    );
    let token_without_mint = TreasuryAction {
        action_type: TreasuryActionType::SendToken,
        amount_lamports: 5,
        recipient: key(8),
        token_mint: None,
    };
    assert_eq!(
        validate_treasury_action(&token_without_mint).unwrap_err(),
        Error::TokenMintRequired
    );
    let token = TreasuryAction { token_mint: Some(key(6)), ..token_without_mint };
    assert!(validate_treasury_action(&token).is_ok());
    let custom_moving_funds = TreasuryAction {
        action_type: TreasuryActionType::CustomCPI,
        amount_lamports: 1,
        recipient: key(8),
        token_mint: None,
    };
    assert_eq!(
        validate_treasury_action(&custom_moving_funds).unwrap_err(),
        Error::InvalidTreasuryAction
    );
    let custom = TreasuryAction { amount_lamports: 0, ..custom_moving_funds };
    assert!(validate_treasury_action(&custom).is_ok());
}

fn passed_proposal(unlocks_at: i64, action: Option<TreasuryAction>) -> Proposal {
    Proposal {
        dao: key(3),
        proposer: key(4),
        proposal_id: 0,
        title: "t".to_string(),
        description: "d".to_string(),
        status: ProposalStatus::Passed,
        voting_end: 10,
        reveal_end: 15,
        yes_capital: 10,
        no_capital: 0,
        yes_community: 3,
        no_community: 0,
        commit_count: 1,
        reveal_count: 1,
        treasury_action: action,
        execution_unlocks_at: unlocks_at,
        is_executed: false,
    }
}

#[test]
fn cancel_only_while_voting() {
    let mut dao = basic_dao();
    let mut p = create_proposal(
        &mut dao,
        key(3),
        key(4),
        "t".to_string(),
        "d".to_string(),
        10,
        None,
        0,
    )
    .unwrap();
    assert!(cancel_proposal(&mut p).is_ok());
    assert_eq!(p.status, ProposalStatus::Cancelled);
    assert_eq!(cancel_proposal(&mut p).unwrap_err(), Error::ProposalNotCancellable);
    let mut passed = passed_proposal(100, None);
    assert_eq!(cancel_proposal(&mut passed).unwrap_err(), Error::ProposalNotCancellable);
}

#[test]
fn veto_window_boundary() {
    let mut p = passed_proposal(100, None);
    assert!(veto_proposal(&mut p, 99).is_ok());
    assert_eq!(p.status, ProposalStatus::Vetoed);
    let mut p2 = passed_proposal(100, None);
    assert_eq!(veto_proposal(&mut p2, 100).unwrap_err(), Error::VetoWindowExpired);
    assert_eq!(p2.status, ProposalStatus::Passed);
    let mut voting = passed_proposal(100, None);
    voting.status = ProposalStatus::Voting;
    assert_eq!(veto_proposal(&mut voting, 0).unwrap_err(), Error::ProposalNotPassed);
    let mut done = passed_proposal(100, None);
    done.is_executed = true;
    assert_eq!(veto_proposal(&mut done, 0).unwrap_err(), Error::AlreadyExecuted);
}

#[test]
fn execute_respects_timelock_and_runs_once() {
    let action = TreasuryAction {
        action_type: TreasuryActionType::SendSol,
        amount_lamports: 7,
        recipient: key(8),
        token_mint: None,
    };
    let mut p = passed_proposal(100, Some(action));
    assert_eq!(
        execute_proposal(&mut p, &accounts_for(key(8)), 99).unwrap_err(),
        Error::ExecutionTimelockActive
    );
    assert!(!p.is_executed);
    let directive = execute_proposal(&mut p, &accounts_for(key(8)), 100).unwrap();
    assert!(p.is_executed);
    assert_eq!(p.status, ProposalStatus::Passed);
    match directive {
        Some(TreasuryDirective::SendSolTo { recipient, amount_lamports }) => {
            assert_eq!(recipient, key(8));
            assert_eq!(amount_lamports, 7);
        }
        other => panic!("unexpected directive {:?}", other),
    }
    // the retry: the second call fails and directs no second transfer
    assert_eq!(
        execute_proposal(&mut p, &accounts_for(key(8)), 101).unwrap_err(),
        Error::AlreadyExecuted
    );
}

#[test]
fn execute_checks_recipient_and_payload() {
    let action = TreasuryAction {
        action_type: TreasuryActionType::SendSol,
        amount_lamports: 7,
        recipient: key(8),
        token_mint: None,
    };
    let mut p = passed_proposal(0, Some(action));
    assert_eq!(
        execute_proposal(&mut p, &accounts_for(key(9)), 0).unwrap_err(),
        Error::TreasuryRecipientMismatch
    );
    assert!(!p.is_executed);
    let corrupted = TreasuryAction { amount_lamports: 0, ..action };
    let mut p2 = passed_proposal(0, Some(corrupted));
    assert_eq!(
        execute_proposal(&mut p2, &accounts_for(key(8)), 0).unwrap_err(),
        Error::InvalidTreasuryAction
    );
    let mut failed = passed_proposal(0, None);
    failed.status = ProposalStatus::Failed;
    assert_eq!(
        execute_proposal(&mut failed, &accounts_for(key(8)), 0).unwrap_err(),
        Error::ProposalNotPassed
    );
    let mut bare = passed_proposal(0, None);
    assert!(execute_proposal(&mut bare, &accounts_for(key(8)), 0).unwrap().is_none());
    assert!(bare.is_executed);
}

#[test]
fn execute_send_token_checks_accounts() {
    let mint = key(6);
    let action = TreasuryAction {
        action_type: TreasuryActionType::SendToken,
        amount_lamports: 40,
        recipient: key(8),
        token_mint: Some(mint),
    };
    let token_program = key(10);
    let treasury = key(9);
    let good = ExecutionAccounts {
        treasury,
        treasury_recipient: key(8),
        token_program,
        treasury_token_account: TokenAccountFacts {
            owner_program: token_program,
            data_len: 165,
            authority: treasury,
            mint,
        },
        recipient_token_account: TokenAccountFacts {
            owner_program: token_program,
            data_len: 165,
            authority: key(8),
            mint,
        },
    };
    let mut p = passed_proposal(0, Some(action));
    let directive = execute_proposal(&mut p, &good, 0).unwrap();
    assert!(matches!(
        directive,
        Some(TreasuryDirective::SendTokenTo { amount_lamports: 40 })
    ));
    let mut wrong_owner = good;
    wrong_owner.treasury_token_account.owner_program = key(11);
    let mut p2 = passed_proposal(0, Some(action));
    assert_eq!(
        execute_proposal(&mut p2, &wrong_owner, 0).unwrap_err(),
        Error::InvalidTokenAccount
    );
    let mut short_data = good;
    short_data.recipient_token_account.data_len = 71;
    let mut p3 = passed_proposal(0, Some(action));
    assert_eq!(
        execute_proposal(&mut p3, &short_data, 0).unwrap_err(),
        Error::InvalidTokenAccount
    );
    let mut foreign_authority = good;
    foreign_authority.treasury_token_account.authority = key(12);
    let mut p4 = passed_proposal(0, Some(action));
    assert_eq!(
        execute_proposal(&mut p4, &foreign_authority, 0).unwrap_err(),
        Error::InvalidTreasuryTokenAuthority
    );
    let mut wrong_mint = good;
    wrong_mint.recipient_token_account.mint = key(13);
    let mut p5 = passed_proposal(0, Some(action));
    assert_eq!(
        execute_proposal(&mut p5, &wrong_mint, 0).unwrap_err(),
        Error::InvalidTokenMint
    );
    let mut wrong_holder = good;
    wrong_holder.recipient_token_account.authority = key(14);
    let mut p6 = passed_proposal(0, Some(action));
    assert_eq!(
        execute_proposal(&mut p6, &wrong_holder, 0).unwrap_err(),
        Error::RecipientOwnerMismatch
    );
}
