//! On-chain governance: proposals and token-weighted voting.
//!
//! Proposals run for a fixed number of ledgers; each principal votes at
//! most once per proposal, with positive voting power. After the voting
//! period a proposal passes when turnout meets the quorum and the share of
//! supporting votes reaches the pass threshold; passed proposals can then
//! be marked executed by the administrator. The host authenticates callers
//! and supplies both clocks (ledger sequence number and timestamp).

use vstd::prelude::*;

verus! {

#[derive(Clone, Copy, PartialEq, Eq, Structural, Debug)]
pub enum ProposalStatus {
    Active,
    Passed,
    Rejected,
    Executed,
    Cancelled,
    Expired,
}

#[derive(Clone, Copy, PartialEq, Eq, Structural, Debug)]
pub enum VoteChoice {
    For,
    Against,
    Abstain,
}

/// One governance proposal, identified by its creation rank.
#[derive(Debug)]
pub struct Proposal {
    pub proposer: u64,
    pub title: String,
    pub description: String,
    pub target_contract: Option<u64>,
    pub status: ProposalStatus,
    pub votes_for: i128,
    pub votes_against: i128,
    pub votes_abstain: i128,
    pub quorum_required: i128,
    pub threshold_pct: u32,
    pub start_ledger: u32,
    pub end_ledger: u32,
    pub created_at: u64,
    pub executed_at: Option<u64>,
}

impl Clone for Proposal {
    /// Field-for-field copy; the contracts below rely on clones being
    /// equal to the original.
    fn clone(&self) -> (r: Proposal)
        ensures
            r == *self,
    {
        Proposal {
            proposer: self.proposer,
            title: self.title.clone(),
            description: self.description.clone(),
            target_contract: self.target_contract,
            status: self.status,
            votes_for: self.votes_for,
            votes_against: self.votes_against,
            votes_abstain: self.votes_abstain,
            quorum_required: self.quorum_required,
            threshold_pct: self.threshold_pct,
            start_ledger: self.start_ledger,
            end_ledger: self.end_ledger,
            created_at: self.created_at,
            executed_at: self.executed_at,
        }
    }
}

/// One recorded vote.
#[derive(Clone, Copy, PartialEq, Eq, Debug)]
pub struct Vote {
    pub choice: VoteChoice,
    pub power: i128,
    pub voted_at: u64,
}

/// A vote together with the voter who cast it.
#[derive(Clone, Copy, PartialEq, Eq, Debug)]
pub struct VoteRecord {
    pub voter: u64,
    pub vote: Vote,
}

/// Why a governance operation was rejected; every rejection leaves the
/// state untouched.
#[derive(Clone, Copy, PartialEq, Eq, Debug)]
pub enum GovernanceError {
    /// The proposal's end ledger would exceed the sequence range.
    LedgerOverflow,
    /// The referenced proposal identifier has no record.
    ProposalNotFound,
    /// The voter already voted on this proposal.
    AlreadyVoted,
    /// The proposal is not in the `Active` state.
    ProposalNotActive,
    /// The voting period is over.
    VotingPeriodEnded,
    /// The voting period is not over yet.
    VotingPeriodNotEnded,
    /// Voting power must be positive.
    InvalidVotingPower,
    /// The vote would push a tally past the bound that keeps the
    /// finalization arithmetic exact.
    TallyOverflow,
    /// The caller may not perform this operation.
    Unauthorized,
    /// Only passed proposals can be executed.
    ProposalNotPassed,
}

/// A proposal together with its recorded votes.
pub struct ProposalSlot {
    pub proposal: Proposal,
    pub votes: Vec<VoteRecord>,
}

/// The governance contract: configuration fixed at initialization and
/// proposals by creation rank.
pub struct GovernanceDaoContract {
    pub admin: u64,
    pub governance_token: u64,
    pub voting_period: u32,
    pub quorum_required: i128,
    pub pass_threshold: u32,
    pub proposer_min_tokens: i128,
    pub proposals: Vec<ProposalSlot>,
}

/// Each tally stays at or below this bound, one hundredth of `i128::MAX`,
/// so that `votes_for * 100` and the turnout sum both stay inside `i128`
/// during finalization.
pub const TALLY_LIMIT: i128 = 1_701_411_834_604_692_317_316_873_037_158_841_057;

/// The fraction of supporting votes, in whole percent, used to decide
/// passage: zero when nobody voted for or against.
pub open spec fn for_percentage(votes_for: i128, votes_against: i128) -> int {
    if votes_for + votes_against > 0 {
        (votes_for * 100) / (votes_for + votes_against)
    } else {
        0
    }
}

/// Whether finalization passes a proposal: turnout (for plus against)
/// meets the quorum and the supporting share reaches the threshold.
pub open spec fn passes(p: Proposal) -> bool {
    &&& p.votes_for + p.votes_against >= p.quorum_required
    &&& for_percentage(p.votes_for, p.votes_against) >= p.threshold_pct
}

/// Consistency of one proposal with its vote history: voters are distinct,
/// every recorded power is positive, and the tallies respect the bound
/// that keeps finalization arithmetic exact.
pub open spec fn proposal_slot_wf(s: ProposalSlot) -> bool {
    &&& forall|i: int, j: int|
        0 <= i < j < s.votes@.len() ==> (#[trigger] s.votes@[i]).voter != (
        #[trigger] s.votes@[j]).voter
    &&& forall|i: int| 0 <= i < s.votes@.len() ==> (#[trigger] s.votes@[i]).vote.power > 0
    &&& 0 <= s.proposal.votes_for <= TALLY_LIMIT
    &&& 0 <= s.proposal.votes_against <= TALLY_LIMIT
    &&& 0 <= s.proposal.votes_abstain <= TALLY_LIMIT
}

/// Whether `voter` already has a vote on record in this slot.
pub open spec fn voted_in(s: ProposalSlot, voter: u64) -> bool {
    exists|i: int| 0 <= i < s.votes@.len() && (#[trigger] s.votes@[i]).voter == voter
}

impl GovernanceDaoContract {
    pub open spec fn wf(self) -> bool {
        forall|i: int| 0 <= i < self.proposals@.len() ==> proposal_slot_wf(
            #[trigger] self.proposals@[i],
        )
    }

    pub open spec fn has_proposal(self, proposal_id: u64) -> bool {
        1 <= proposal_id && proposal_id as int <= self.proposals@.len()
    }

    pub open spec fn slot(self, proposal_id: u64) -> ProposalSlot {
        self.proposals@[proposal_id as int - 1]
    }

    pub open spec fn same_config(self, other: GovernanceDaoContract) -> bool {
        &&& self.admin == other.admin
        &&& self.governance_token == other.governance_token
        &&& self.voting_period == other.voting_period
        &&& self.quorum_required == other.quorum_required
        &&& self.pass_threshold == other.pass_threshold
        &&& self.proposer_min_tokens == other.proposer_min_tokens
    }

    /// Set up the governance contract: administrator, governance token,
    /// voting period in ledgers, quorum, pass threshold in percent, and
    /// the minimum token holding required of proposers.
    pub fn initialize(
        admin: u64,
        governance_token: u64,
        voting_period: u32,
        quorum_required: i128,
        pass_threshold: u32,
        proposer_min: i128,
    ) -> (v: GovernanceDaoContract)
        ensures
            v.wf(),
            v.admin == admin,
            v.governance_token == governance_token,
            v.voting_period == voting_period,
            v.quorum_required == quorum_required,
            v.pass_threshold == pass_threshold,
            v.proposer_min_tokens == proposer_min,
            v.proposals@.len() == 0,
    {
        GovernanceDaoContract {
            admin,
            governance_token,
            voting_period,
            quorum_required,
            pass_threshold,
            proposer_min_tokens: proposer_min,
            proposals: Vec::new(),
        }
    }

    /// Open a proposal for voting from the current ledger until
    /// `voting_period` ledgers later, under the configuration captured at
    /// this moment. Returns the new proposal's identifier.
    pub fn create_proposal(
        &mut self,
        proposer: u64,
        title: String,
        description: String,
        target_contract: Option<u64>,
        current_ledger: u32,
        now: u64,
    ) -> (r: Result<u64, GovernanceError>)
        requires
            old(self).wf(),
            old(self).proposals@.len() < usize::MAX,
        ensures
            final(self).wf(),
            old(self).same_config(*final(self)),
            r is Ok <==> current_ledger + old(self).voting_period <= u32::MAX,
            r is Err ==> *final(self) == *old(self),
            r == Err::<u64, GovernanceError>(GovernanceError::LedgerOverflow) <==> current_ledger
                + old(self).voting_period > u32::MAX,
            r matches Ok(proposal_id) ==> {
                &&& proposal_id as int == old(self).proposals@.len() + 1
                &&& final(self).proposals@.len() == old(self).proposals@.len() + 1
                &&& (forall|j: int|
                    0 <= j < old(self).proposals@.len() ==> final(self).proposals@[j] == old(
                        self,
                    ).proposals@[j])
                &&& final(self).slot(proposal_id).proposal == (Proposal {
                    proposer,
                    title,
                    description,
                    target_contract,
                    status: ProposalStatus::Active,
                    votes_for: 0,
                    votes_against: 0,
                    votes_abstain: 0,
                    quorum_required: old(self).quorum_required,
                    threshold_pct: old(self).pass_threshold,
                    start_ledger: current_ledger,
                    end_ledger: (current_ledger + old(self).voting_period) as u32,
                    created_at: now,
                    executed_at: None,
                })
                &&& final(self).slot(proposal_id).votes@.len() == 0
            },
    {
        if self.voting_period > u32::MAX - current_ledger {
            return Err(GovernanceError::LedgerOverflow);
        }
        let proposal_id: u64 = self.proposals.len() as u64 + 1;
        self.proposals.push(
            ProposalSlot {
                proposal: Proposal {
                    proposer,
                    title,
                    description,
                    target_contract,
                    status: ProposalStatus::Active,
                    votes_for: 0,
                    votes_against: 0,
                    votes_abstain: 0,
                    quorum_required: self.quorum_required,
                    threshold_pct: self.pass_threshold,
                    start_ledger: current_ledger,
                    end_ledger: current_ledger + self.voting_period,
                    created_at: now,
                    executed_at: None,
                },
                votes: Vec::new(),
            },
        );
        Ok(proposal_id)
    }

    /// Cast a vote with positive power on an active proposal whose voting
    /// period is still open; each voter votes at most once per proposal.
    pub fn cast_vote(
        &mut self,
        voter: u64,
        proposal_id: u64,
        choice: VoteChoice,
        power: i128,
        current_ledger: u32,
        now: u64,
    ) -> (r: Result<(), GovernanceError>)
        requires
            old(self).wf(),
        ensures
            final(self).wf(),
            old(self).same_config(*final(self)),
            r is Err ==> *final(self) == *old(self),
            r == Err::<(), GovernanceError>(GovernanceError::ProposalNotFound) <==> !old(
                self,
            ).has_proposal(proposal_id),
            r == Err::<(), GovernanceError>(GovernanceError::AlreadyVoted) <==> old(
                self,
            ).has_proposal(proposal_id) && voted_in(old(self).slot(proposal_id), voter),
            r == Err::<(), GovernanceError>(GovernanceError::ProposalNotActive) <==> old(
                self,
            ).has_proposal(proposal_id) && !voted_in(old(self).slot(proposal_id), voter) && old(
                self,
            ).slot(proposal_id).proposal.status != ProposalStatus::Active,
            r == Err::<(), GovernanceError>(GovernanceError::VotingPeriodEnded) <==> old(
                self,
            ).has_proposal(proposal_id) && !voted_in(old(self).slot(proposal_id), voter) && old(
                self,
            ).slot(proposal_id).proposal.status == ProposalStatus::Active && current_ledger > old(
                self,
            ).slot(proposal_id).proposal.end_ledger,
            r == Err::<(), GovernanceError>(GovernanceError::InvalidVotingPower) <==> old(
                self,
            ).has_proposal(proposal_id) && !voted_in(old(self).slot(proposal_id), voter) && old(
                self,
            ).slot(proposal_id).proposal.status == ProposalStatus::Active && current_ledger <= old(
                self,
            ).slot(proposal_id).proposal.end_ledger && power <= 0,
            r == Err::<(), GovernanceError>(GovernanceError::TallyOverflow) <==> old(
                self,
            ).has_proposal(proposal_id) && !voted_in(old(self).slot(proposal_id), voter) && old(
                self,
            ).slot(proposal_id).proposal.status == ProposalStatus::Active && current_ledger <= old(
                self,
            ).slot(proposal_id).proposal.end_ledger && power > 0 && tally_of(
                old(self).slot(proposal_id).proposal,
                choice,
            ) + power > TALLY_LIMIT,
            r is Ok <==> old(self).has_proposal(proposal_id) && !voted_in(
                old(self).slot(proposal_id),
                voter,
            ) && old(self).slot(proposal_id).proposal.status == ProposalStatus::Active
                && current_ledger <= old(self).slot(proposal_id).proposal.end_ledger && power > 0
                && tally_of(old(self).slot(proposal_id).proposal, choice) + power <= TALLY_LIMIT,
            r is Ok ==> {
                let pre = old(self).slot(proposal_id);
                &&& final(self).proposals@.len() == old(self).proposals@.len()
                &&& (forall|j: int|
                    0 <= j < old(self).proposals@.len() && j != proposal_id - 1
                        ==> final(self).proposals@[j] == old(self).proposals@[j])
                &&& final(self).slot(proposal_id).votes@ == pre.votes@.push(
                    VoteRecord { voter, vote: Vote { choice, power, voted_at: now } },
                )
                &&& final(self).slot(proposal_id).proposal == (Proposal {
                    votes_for: if choice == VoteChoice::For {
                        (pre.proposal.votes_for + power) as i128
                    } else {
                        pre.proposal.votes_for
                    },
                    votes_against: if choice == VoteChoice::Against {
                        (pre.proposal.votes_against + power) as i128
                    } else {
                        pre.proposal.votes_against
                    },
                    votes_abstain: if choice == VoteChoice::Abstain {
                        (pre.proposal.votes_abstain + power) as i128
                    } else {
                        pre.proposal.votes_abstain
                    },
                    ..pre.proposal
                })
            },
    {
        if !(1 <= proposal_id && proposal_id <= self.proposals.len() as u64) {
            return Err(GovernanceError::ProposalNotFound);
        }
        let idx: usize = (proposal_id - 1) as usize;
        if find_vote(&self.proposals[idx].votes, voter).is_some() {
            return Err(GovernanceError::AlreadyVoted);
        }
        if self.proposals[idx].proposal.status != ProposalStatus::Active {
            return Err(GovernanceError::ProposalNotActive);
        }
        if current_ledger > self.proposals[idx].proposal.end_ledger {
            return Err(GovernanceError::VotingPeriodEnded);
        }
        if power <= 0 {
            return Err(GovernanceError::InvalidVotingPower);
        }
        let tally: i128 = match choice {
            VoteChoice::For => self.proposals[idx].proposal.votes_for,
            VoteChoice::Against => self.proposals[idx].proposal.votes_against,
            VoteChoice::Abstain => self.proposals[idx].proposal.votes_abstain,
        };
        if power > TALLY_LIMIT - tally {
            return Err(GovernanceError::TallyOverflow);
        }
        let mut slot = self.proposals.remove(idx);
        match choice {
            VoteChoice::For => {
                slot.proposal.votes_for = slot.proposal.votes_for + power;
            },
            VoteChoice::Against => {
                slot.proposal.votes_against = slot.proposal.votes_against + power;
            },
            VoteChoice::Abstain => {
                slot.proposal.votes_abstain = slot.proposal.votes_abstain + power;
            },
        }
        slot.votes.push(VoteRecord { voter, vote: Vote { choice, power, voted_at: now } });
        let ghost gslot = slot;
        self.proposals.insert(idx, slot);
        proof {
            assert(gslot.votes@[gslot.votes@.len() - 1].voter == voter);
            assert(voted_in(gslot, voter));
            assert(self.proposals@ =~= old(self).proposals@.update(idx as int, gslot));
        }
        Ok(())
    }

    /// Close an active proposal once its voting period has ended, setting
    /// it to passed or rejected by quorum and supporting share. Anyone may
    /// trigger finalization; the verdict depends only on the tallies.
    pub fn finalize_proposal(&mut self, proposal_id: u64, current_ledger: u32) -> (r: Result<
        (),
        GovernanceError,
    >)
        requires
            old(self).wf(),
        ensures
            final(self).wf(),
            old(self).same_config(*final(self)),
            r is Err ==> *final(self) == *old(self),
            r == Err::<(), GovernanceError>(GovernanceError::ProposalNotFound) <==> !old(
                self,
            ).has_proposal(proposal_id),
            r == Err::<(), GovernanceError>(GovernanceError::ProposalNotActive) <==> old(
                self,
            ).has_proposal(proposal_id) && old(self).slot(proposal_id).proposal.status
                != ProposalStatus::Active,
            r == Err::<(), GovernanceError>(GovernanceError::VotingPeriodNotEnded) <==> old(
                self,
            ).has_proposal(proposal_id) && old(self).slot(proposal_id).proposal.status
                == ProposalStatus::Active && current_ledger <= old(self).slot(
                proposal_id,
            ).proposal.end_ledger,
            r is Ok <==> old(self).has_proposal(proposal_id) && old(self).slot(
                proposal_id,
            ).proposal.status == ProposalStatus::Active && current_ledger > old(self).slot(
                proposal_id,
            ).proposal.end_ledger,
            r is Ok ==> {
                let pre = old(self).slot(proposal_id);
                &&& final(self).proposals@.len() == old(self).proposals@.len()
                &&& (forall|j: int|
                    0 <= j < old(self).proposals@.len() && j != proposal_id - 1
                        ==> final(self).proposals@[j] == old(self).proposals@[j])
                &&& final(self).slot(proposal_id).votes@ == pre.votes@
                &&& final(self).slot(proposal_id).proposal == (Proposal {
                    status: if passes(pre.proposal) {
                        ProposalStatus::Passed
                    } else {
                        ProposalStatus::Rejected
                    },
                    ..pre.proposal
                })
            },
    {
        if !(1 <= proposal_id && proposal_id <= self.proposals.len() as u64) {
            return Err(GovernanceError::ProposalNotFound);
        }
        let idx: usize = (proposal_id - 1) as usize;
        if self.proposals[idx].proposal.status != ProposalStatus::Active {
            return Err(GovernanceError::ProposalNotActive);
        }
        if current_ledger <= self.proposals[idx].proposal.end_ledger {
            return Err(GovernanceError::VotingPeriodNotEnded);
        }
        let mut slot = self.proposals.remove(idx);
        let total_votes: i128 = slot.proposal.votes_for + slot.proposal.votes_against;
        let quorum_met: bool = total_votes >= slot.proposal.quorum_required;
        let for_pct: i128 = if total_votes > 0 {
            (slot.proposal.votes_for * 100) / total_votes
        } else {
            0
        };
        slot.proposal.status = if quorum_met && for_pct >= slot.proposal.threshold_pct as i128 {
            ProposalStatus::Passed
        } else {
            ProposalStatus::Rejected
        };
        let ghost gslot = slot;
        self.proposals.insert(idx, slot);
        proof {
            assert(self.proposals@ =~= old(self).proposals@.update(idx as int, gslot));
        }
        Ok(())
    }

    /// Mark a passed proposal as executed. Administrator only.
    pub fn execute_proposal(&mut self, admin: u64, proposal_id: u64, now: u64) -> (r: Result<
        (),
        GovernanceError,
    >)
        requires
            old(self).wf(),
        ensures
            final(self).wf(),
            old(self).same_config(*final(self)),
            r is Err ==> *final(self) == *old(self),
            r == Err::<(), GovernanceError>(GovernanceError::Unauthorized) <==> admin != old(
                self,
            ).admin,
            r == Err::<(), GovernanceError>(GovernanceError::ProposalNotFound) <==> admin == old(
                self,
            ).admin && !old(self).has_proposal(proposal_id),
            r == Err::<(), GovernanceError>(GovernanceError::ProposalNotPassed) <==> admin == old(
                self,
            ).admin && old(self).has_proposal(proposal_id) && old(self).slot(
                proposal_id,
            ).proposal.status != ProposalStatus::Passed,
            r is Ok <==> admin == old(self).admin && old(self).has_proposal(proposal_id) && old(
                self,
            ).slot(proposal_id).proposal.status == ProposalStatus::Passed,
            r is Ok ==> {
                let pre = old(self).slot(proposal_id);
                &&& final(self).proposals@.len() == old(self).proposals@.len()
                &&& (forall|j: int|
                    0 <= j < old(self).proposals@.len() && j != proposal_id - 1
                        ==> final(self).proposals@[j] == old(self).proposals@[j])
                &&& final(self).slot(proposal_id).votes@ == pre.votes@
                &&& final(self).slot(proposal_id).proposal == (Proposal {
                    status: ProposalStatus::Executed,
                    executed_at: Some(now),
                    ..pre.proposal
                })
            },
    {
        if admin != self.admin {
            return Err(GovernanceError::Unauthorized);
        }
        if !(1 <= proposal_id && proposal_id <= self.proposals.len() as u64) {
            return Err(GovernanceError::ProposalNotFound);
        }
        let idx: usize = (proposal_id - 1) as usize;
        if self.proposals[idx].proposal.status != ProposalStatus::Passed {
            return Err(GovernanceError::ProposalNotPassed);
        }
        let mut slot = self.proposals.remove(idx);
        slot.proposal.status = ProposalStatus::Executed;
        slot.proposal.executed_at = Some(now);
        let ghost gslot = slot;
        self.proposals.insert(idx, slot);
        proof {
            assert(self.proposals@ =~= old(self).proposals@.update(idx as int, gslot));
        }
        Ok(())
    }

    /// Cancel a proposal, whatever its current state. The proposer or the
    /// administrator may do so.
    pub fn cancel_proposal(&mut self, caller: u64, proposal_id: u64) -> (r: Result<
        (),
        GovernanceError,
    >)
        requires
            old(self).wf(),
        ensures
            final(self).wf(),
            old(self).same_config(*final(self)),
            r is Err ==> *final(self) == *old(self),
            r == Err::<(), GovernanceError>(GovernanceError::ProposalNotFound) <==> !old(
                self,
            ).has_proposal(proposal_id),
            r == Err::<(), GovernanceError>(GovernanceError::Unauthorized) <==> old(
                self,
            ).has_proposal(proposal_id) && caller != old(self).slot(proposal_id).proposal.proposer
                && caller != old(self).admin,
            r is Ok <==> old(self).has_proposal(proposal_id) && (caller == old(self).slot(
                proposal_id,
            ).proposal.proposer || caller == old(self).admin),
            r is Ok ==> {
                let pre = old(self).slot(proposal_id);
                &&& final(self).proposals@.len() == old(self).proposals@.len()
                &&& (forall|j: int|
                    0 <= j < old(self).proposals@.len() && j != proposal_id - 1
                        ==> final(self).proposals@[j] == old(self).proposals@[j])
                &&& final(self).slot(proposal_id).votes@ == pre.votes@
                &&& final(self).slot(proposal_id).proposal == (Proposal {
                    status: ProposalStatus::Cancelled,
                    ..pre.proposal
                })
            },
    {
        if !(1 <= proposal_id && proposal_id <= self.proposals.len() as u64) {
            return Err(GovernanceError::ProposalNotFound);
        }
        let idx: usize = (proposal_id - 1) as usize;
        if caller != self.proposals[idx].proposal.proposer && caller != self.admin {
            return Err(GovernanceError::Unauthorized);
        }
        let mut slot = self.proposals.remove(idx);
        slot.proposal.status = ProposalStatus::Cancelled;
        let ghost gslot = slot;
        self.proposals.insert(idx, slot);
        proof {
            assert(self.proposals@ =~= old(self).proposals@.update(idx as int, gslot));
        }
        Ok(())
    }

    /// Read one proposal.
    pub fn get_proposal(&self, proposal_id: u64) -> (r: Option<Proposal>)
        ensures
            self.has_proposal(proposal_id) ==> r == Some(self.slot(proposal_id).proposal),
            !self.has_proposal(proposal_id) ==> r is None,
    {
        if 1 <= proposal_id && proposal_id <= self.proposals.len() as u64 {
            let idx: usize = (proposal_id - 1) as usize;
            Some(self.proposals[idx].proposal.clone())
        } else {
            None
        }
    }

    /// Read one voter's vote on a proposal, if any.
    pub fn get_vote(&self, proposal_id: u64, voter: u64) -> (r: Option<Vote>)
        ensures
            r is Some <==> self.has_proposal(proposal_id) && voted_in(self.slot(proposal_id), voter),
            r matches Some(v) ==> exists|i: int|
                0 <= i < self.slot(proposal_id).votes@.len() && #[trigger] self.slot(
                    proposal_id,
                ).votes@[i] == (VoteRecord { voter, vote: v }),
    {
        if 1 <= proposal_id && proposal_id <= self.proposals.len() as u64 {
            let idx: usize = (proposal_id - 1) as usize;
            match find_vote(&self.proposals[idx].votes, voter) {
                Some(v_idx) => {
                    let record = self.proposals[idx].votes[v_idx];
                    proof {
                        assert(self.slot(proposal_id).votes@[v_idx as int] == record);
                    }
                    Some(record.vote)
                },
                None => None,
            }
        } else {
            None
        }
    }

    /// Whether a voter has voted on a proposal; false for an unknown
    /// proposal.
    pub fn has_voted(&self, proposal_id: u64, voter: u64) -> (r: bool)
        ensures
            r == (self.has_proposal(proposal_id) && voted_in(self.slot(proposal_id), voter)),
    {
        if 1 <= proposal_id && proposal_id <= self.proposals.len() as u64 {
            let idx: usize = (proposal_id - 1) as usize;
            find_vote(&self.proposals[idx].votes, voter).is_some()
        } else {
            false
        }
    }

    /// Number of proposals created so far.
    pub fn get_proposal_count(&self) -> (n: u64)
        ensures
            n as int == self.proposals@.len(),
    {
        self.proposals.len() as u64
    }
}

/// The tally a vote choice accumulates into.
pub open spec fn tally_of(p: Proposal, choice: VoteChoice) -> i128 {
    match choice {
        VoteChoice::For => p.votes_for,
        VoteChoice::Against => p.votes_against,
        VoteChoice::Abstain => p.votes_abstain,
    }
}

/// Linear scan for a voter's record.
fn find_vote(votes: &Vec<VoteRecord>, voter: u64) -> (r: Option<usize>)
    ensures
        r matches Some(i) ==> i < votes@.len() && votes@[i as int].voter == voter,
        r is None ==> forall|j: int| 0 <= j < votes@.len() ==> votes@[j].voter != voter,
{
    let mut i: usize = 0;
    while i < votes.len()
        invariant
            i <= votes.len(),
            forall|j: int| 0 <= j < i ==> votes@[j].voter != voter,
        decreases votes.len() - i,
    {
        if votes[i].voter == voter {
            return Some(i);
        }
        i = i + 1;
    }
    None
}

} // verus!
