use private_dao::config::initialize_dao;
use private_dao::keys::Pubkey;
use private_dao::state::{Dao, Error, Proposal, ProposalStatus, VotingConfig};
use private_dao::tally::{finalize_proposal, quorum_met, vote_passes};

fn id(tag: u8) -> Pubkey {
    Pubkey { bytes: [tag; 32] }
}

fn dao_of(quorum: u8, delay: i64, cfg: VotingConfig) -> Dao {
    initialize_dao(id(1), id(2), "dao".to_string(), quorum, 0, 5, delay, cfg).unwrap()
}

fn tallied_proposal(
    yes_capital: u64,
    no_capital: u64,
    yes_community: u64,
    no_community: u64,
    commit_count: u64,
    reveal_count: u64,
) -> Proposal {
    Proposal {
        dao: id(3),
        proposer: id(4),
        proposal_id: 0,
        title: "t".to_string(),
        description: "d".to_string(),
        status: ProposalStatus::Voting,
        voting_end: 10,
        reveal_end: 15,
        yes_capital,
        no_capital,
        yes_community,
        no_community,
        commit_count,
        reveal_count,
        treasury_action: None,
        execution_unlocks_at: 0,
        is_executed: false,
    }
}

#[test]
fn quorum_on_cross_multiplied_integers() {
    let dao = dao_of(50, 0, VotingConfig::TokenWeighted);
    // 4 of 10 revealed: 400 < 500 fails quorum
    assert!(!quorum_met(&dao, &tallied_proposal(1, 0, 1, 0, 10, 4)));
    // 5 of 10 revealed: 500 >= 500 meets quorum exactly
    assert!(quorum_met(&dao, &tallied_proposal(1, 0, 1, 0, 10, 5)));
    // nobody committed: no quorum however the counts read
    assert!(!quorum_met(&dao, &tallied_proposal(0, 0, 0, 0, 0, 0)));
}

#[test]
fn token_weighted_needs_strict_majority() {
    let cfg = VotingConfig::TokenWeighted;
    assert!(vote_passes(&cfg, &tallied_proposal(51, 49, 0, 0, 2, 2)));
    // a tie fails
    assert!(!vote_passes(&cfg, &tallied_proposal(50, 50, 0, 0, 2, 2)));
    // nothing revealed fails
    assert!(!vote_passes(&cfg, &tallied_proposal(0, 0, 0, 0, 2, 2)));
}

#[test]
fn quadratic_reads_community_tallies() {
    let cfg = VotingConfig::Quadratic;
    // capital says no, community says yes: quadratic mode listens to community
    assert!(vote_passes(&cfg, &tallied_proposal(10, 90, 12, 9, 2, 2)));
    assert!(!vote_passes(&cfg, &tallied_proposal(90, 10, 9, 12, 2, 2)));
    assert!(!vote_passes(&cfg, &tallied_proposal(90, 10, 9, 9, 2, 2)));
}

#[test]
fn dual_chamber_both_must_clear() {
    let cfg = VotingConfig::DualChamber { capital_threshold: 60, community_threshold: 40 };
    // capital yes-share 55% misses its 60% bar even with unanimous community
    assert!(!vote_passes(&cfg, &tallied_proposal(55, 45, 100, 0, 2, 2)));
    // both clear: 60% capital, 40% community exactly
    assert!(vote_passes(&cfg, &tallied_proposal(60, 40, 40, 60, 2, 2)));
    // community chamber failing sinks a unanimous capital chamber
    assert!(!vote_passes(&cfg, &tallied_proposal(100, 0, 39, 61, 2, 2)));
    // an empty chamber fails its side
    assert!(!vote_passes(&cfg, &tallied_proposal(100, 0, 0, 0, 2, 2)));
}

#[test]
fn finalize_passes_and_starts_timelock() {
    let dao = dao_of(50, 3600, VotingConfig::TokenWeighted);
    let mut p = tallied_proposal(60, 40, 8, 6, 2, 2);
    let passed = finalize_proposal(&dao, &mut p, 20).unwrap();
    assert!(passed);
    assert_eq!(p.status, ProposalStatus::Passed);
    assert_eq!(p.execution_unlocks_at, 20 + 3600);
    // finalizing twice fails: the status transition enforces idempotency
    assert_eq!(finalize_proposal(&dao, &mut p, 21).unwrap_err(), Error::AlreadyFinalized);
    assert_eq!(p.status, ProposalStatus::Passed);
}

#[test]
fn finalize_fails_quorum_or_threshold() {
    let dao = dao_of(50, 3600, VotingConfig::TokenWeighted);
    // quorum missed: 4 of 10
    let mut p = tallied_proposal(100, 0, 10, 0, 10, 4);
    assert!(!finalize_proposal(&dao, &mut p, 20).unwrap());
    assert_eq!(p.status, ProposalStatus::Failed);
    assert_eq!(p.execution_unlocks_at, 0);
    // quorum met but tied
    let mut p2 = tallied_proposal(50, 50, 5, 5, 2, 2);
    assert!(!finalize_proposal(&dao, &mut p2, 20).unwrap());
    assert_eq!(p2.status, ProposalStatus::Failed);
}

#[test]
fn finalize_waits_for_reveal_end() {
    let dao = dao_of(50, 0, VotingConfig::TokenWeighted);
    let mut p = tallied_proposal(60, 40, 8, 6, 2, 2);
    assert_eq!(finalize_proposal(&dao, &mut p, 14).unwrap_err(), Error::RevealStillOpen);
    assert_eq!(p.status, ProposalStatus::Voting);
    assert!(finalize_proposal(&dao, &mut p, 15).is_ok());
}

#[test]
fn finalize_keeps_tally_snapshot() {
    let dao = dao_of(50, 0, VotingConfig::TokenWeighted);
    let mut p = tallied_proposal(60, 40, 8, 6, 9, 7);
    finalize_proposal(&dao, &mut p, 20).unwrap();
    // the audit snapshot: tallies and counters survive finalization
    assert_eq!(
        (p.yes_capital, p.no_capital, p.yes_community, p.no_community),
        (60, 40, 8, 6)
    );
    assert_eq!((p.commit_count, p.reveal_count), (9, 7));
}
