use pulsar_track::governance_dao::{
    GovernanceDaoContract, GovernanceError, ProposalStatus, VoteChoice, TALLY_LIMIT,
};

const ADMIN: u64 = 1;
const TOKEN: u64 = 2;
const PROPOSER: u64 = 40;

fn dao() -> GovernanceDaoContract {
    GovernanceDaoContract::initialize(ADMIN, TOKEN, 3600, 1000, 5000, 100)
}

/// A DAO with sensible thresholds: quorum 100, pass at 51 percent.
fn small_dao() -> GovernanceDaoContract {
    GovernanceDaoContract::initialize(ADMIN, TOKEN, 10, 100, 51, 1)
}

fn open_proposal(dao: &mut GovernanceDaoContract) -> u64 {
    dao.create_proposal(
        PROPOSER,
        String::from("fund the relay"),
        String::from("move treasury funds to the relay operators"),
        None,
        100,
        5,
    )
    .unwrap()
}

#[test]
fn test_test_initialize() {
    let v = dao();
    assert_eq!(v.get_proposal_count(), 0);
    assert!(v.get_proposal(1).is_none());
    assert!(!v.has_voted(1, PROPOSER));
}

#[test]
fn create_proposal_captures_configuration() {
    let mut v = small_dao();
    let id = open_proposal(&mut v);
    assert_eq!(id, 1);
    assert_eq!(v.get_proposal_count(), 1);
    let p = v.get_proposal(1).unwrap();
    assert_eq!(p.proposer, PROPOSER);
    assert_eq!(p.title, String::from("fund the relay"));
    assert_eq!(p.status, ProposalStatus::Active);
    assert_eq!(p.votes_for, 0);
    assert_eq!(p.quorum_required, 100);
    assert_eq!(p.threshold_pct, 51);
    assert_eq!(p.start_ledger, 100);
    assert_eq!(p.end_ledger, 110);
    assert_eq!(p.created_at, 5);
    assert_eq!(p.executed_at, None);
}

#[test]
fn create_proposal_rejects_ledger_overflow() {
    let mut v = small_dao();
    let r = v.create_proposal(PROPOSER, String::from("x"), String::from("y"), None, u32::MAX, 0);
    assert_eq!(r, Err(GovernanceError::LedgerOverflow));
    assert_eq!(v.get_proposal_count(), 0);
}

#[test]
fn votes_accumulate_into_the_right_tallies() {
    let mut v = small_dao();
    open_proposal(&mut v);
    assert_eq!(v.cast_vote(50, 1, VoteChoice::For, 60, 105, 6), Ok(()));
    assert_eq!(v.cast_vote(51, 1, VoteChoice::Against, 40, 105, 7), Ok(()));
    assert_eq!(v.cast_vote(52, 1, VoteChoice::Abstain, 30, 105, 8), Ok(()));
    let p = v.get_proposal(1).unwrap();
    assert_eq!(p.votes_for, 60);
    assert_eq!(p.votes_against, 40);
    assert_eq!(p.votes_abstain, 30);
    assert!(v.has_voted(1, 50));
    let vote = v.get_vote(1, 51).unwrap();
    assert_eq!(vote.power, 40);
    assert_eq!(vote.voted_at, 7);
    assert_eq!(v.get_vote(1, 99), None);
}

#[test]
fn voting_guards() {
    let mut v = small_dao();
    open_proposal(&mut v);
    assert_eq!(v.cast_vote(50, 2, VoteChoice::For, 10, 105, 0), Err(GovernanceError::ProposalNotFound));
    assert_eq!(v.cast_vote(50, 1, VoteChoice::For, 0, 105, 0), Err(GovernanceError::InvalidVotingPower));
    assert_eq!(v.cast_vote(50, 1, VoteChoice::For, -4, 105, 0), Err(GovernanceError::InvalidVotingPower));
    assert_eq!(v.cast_vote(50, 1, VoteChoice::For, 10, 111, 0), Err(GovernanceError::VotingPeriodEnded));
    assert_eq!(v.cast_vote(50, 1, VoteChoice::For, 10, 105, 0), Ok(()));
    assert_eq!(v.cast_vote(50, 1, VoteChoice::Against, 10, 105, 0), Err(GovernanceError::AlreadyVoted));
    assert_eq!(
        v.cast_vote(51, 1, VoteChoice::For, TALLY_LIMIT, 105, 0),
        Err(GovernanceError::TallyOverflow)
    );
}

#[test]
fn finalize_passes_on_quorum_and_share() {
    let mut v = small_dao();
    open_proposal(&mut v);
    assert_eq!(v.cast_vote(50, 1, VoteChoice::For, 60, 105, 0), Ok(()));
    assert_eq!(v.cast_vote(51, 1, VoteChoice::Against, 40, 105, 0), Ok(()));
    assert_eq!(v.finalize_proposal(1, 110), Err(GovernanceError::VotingPeriodNotEnded));
    assert_eq!(v.finalize_proposal(1, 111), Ok(()));
    // turnout 100 meets the quorum, and 60 * 100 / 100 = 60 >= 51
    assert_eq!(v.get_proposal(1).unwrap().status, ProposalStatus::Passed);
    assert_eq!(v.finalize_proposal(1, 112), Err(GovernanceError::ProposalNotActive));
}

#[test]
fn finalize_rejects_below_share() {
    let mut v = small_dao();
    open_proposal(&mut v);
    assert_eq!(v.cast_vote(50, 1, VoteChoice::For, 50, 105, 0), Ok(()));
    assert_eq!(v.cast_vote(51, 1, VoteChoice::Against, 50, 105, 0), Ok(()));
    assert_eq!(v.finalize_proposal(1, 111), Ok(()));
    // 50 * 100 / 100 = 50 < 51
    assert_eq!(v.get_proposal(1).unwrap().status, ProposalStatus::Rejected);
}

#[test]
fn finalize_rejects_below_quorum() {
    let mut v = small_dao();
    open_proposal(&mut v);
    assert_eq!(v.cast_vote(50, 1, VoteChoice::For, 99, 105, 0), Ok(()));
    assert_eq!(v.finalize_proposal(1, 111), Ok(()));
    // turnout 99 misses the quorum of 100 even though the share is 100%
    assert_eq!(v.get_proposal(1).unwrap().status, ProposalStatus::Rejected);
}

#[test]
fn finalize_with_no_votes_rejects() {
    let mut v = GovernanceDaoContract::initialize(ADMIN, TOKEN, 10, 0, 51, 1);
    open_proposal(&mut v);
    assert_eq!(v.finalize_proposal(1, 111), Ok(()));
    // zero turnout meets a zero quorum, but the share counts as zero
    assert_eq!(v.get_proposal(1).unwrap().status, ProposalStatus::Rejected);
}

#[test]
fn execute_needs_admin_and_a_passed_proposal() {
    let mut v = small_dao();
    open_proposal(&mut v);
    assert_eq!(v.execute_proposal(PROPOSER, 1, 0), Err(GovernanceError::Unauthorized));
    assert_eq!(v.execute_proposal(ADMIN, 1, 0), Err(GovernanceError::ProposalNotPassed));
    assert_eq!(v.cast_vote(50, 1, VoteChoice::For, 200, 105, 0), Ok(()));
    assert_eq!(v.finalize_proposal(1, 111), Ok(()));
    assert_eq!(v.execute_proposal(ADMIN, 2, 0), Err(GovernanceError::ProposalNotFound));
    assert_eq!(v.execute_proposal(ADMIN, 1, 77), Ok(()));
    let p = v.get_proposal(1).unwrap();
    assert_eq!(p.status, ProposalStatus::Executed);
    assert_eq!(p.executed_at, Some(77));
}

#[test]
fn cancel_by_proposer_or_admin_only() {
    let mut v = small_dao();
    open_proposal(&mut v);
    assert_eq!(v.cancel_proposal(50, 1), Err(GovernanceError::Unauthorized));
    assert_eq!(v.cancel_proposal(50, 2), Err(GovernanceError::ProposalNotFound));
    assert_eq!(v.cancel_proposal(PROPOSER, 1), Ok(()));
    assert_eq!(v.get_proposal(1).unwrap().status, ProposalStatus::Cancelled);
    let mut w = small_dao();
    open_proposal(&mut w);
    assert_eq!(w.cancel_proposal(ADMIN, 1), Ok(()));
    assert_eq!(w.get_proposal(1).unwrap().status, ProposalStatus::Cancelled);
}

#[test]
fn vote_on_cancelled_proposal_fails() {
    let mut v = small_dao();
    open_proposal(&mut v);
    assert_eq!(v.cancel_proposal(PROPOSER, 1), Ok(()));
    assert_eq!(v.cast_vote(50, 1, VoteChoice::For, 10, 105, 0), Err(GovernanceError::ProposalNotActive));
}
