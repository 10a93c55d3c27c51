//! Circle governance: proposals, quadratic voting and the voting power that
//! token holdings and reputation give.
use vstd::prelude::*;

use crate::account::Account;
use crate::rejection::Rejection;
use crate::reputation::{
    ReliabilityIndex, UserReputationMetrics, get_ri_internal, ri_or_fresh, metrics_or_fresh, metrics_after_vote,
    record_governance_vote, div_toward_zero, GOVERNANCE_VOTE_BONUS,
};

verus! {

/// Length of a proposal's voting period, in seconds.
pub const VOTING_PERIOD: u64 = 86_400;

/// Identifier given to proposals.
pub const PROPOSAL_ID: u64 = 1;

#[derive(Clone, Copy, Debug, PartialEq, Eq, Structural)]
pub enum ProposalType {
    ChangeLateFee,
    ChangeInsuranceFee,
    ChangeCycleDuration,
    AddMember,
    RemoveMember,
    ChangeQuorum,
    EmergencyAction,
}

#[derive(Clone, Copy, Debug, PartialEq, Eq, Structural)]
pub enum ProposalStatus {
    Draft,
    Active,
    Approved,
    Rejected,
    Executed,
    Expired,
}

#[derive(Clone, Copy, Debug, PartialEq, Eq, Structural)]
pub enum QuadraticVoteChoice {
    For,
    Against,
    Abstain,
}

/// A governance proposal of a circle.
#[derive(Debug)]
pub struct Proposal {
    pub id: u64,
    pub circle_id: u64,
    pub proposer: Account,
    pub proposal_type: ProposalType,
    pub title: String,
    pub description: String,
    pub created_timestamp: u64,
    pub voting_start_timestamp: u64,
    pub voting_end_timestamp: u64,
    pub status: ProposalStatus,
    pub for_votes: u64,
    pub against_votes: u64,
    pub total_voting_power: u64,
    pub quorum_met: bool,
    pub execution_data: String,
}

/// A vote cast with quadratic cost.
#[derive(Clone, Copy, Debug, PartialEq, Eq, Structural)]
pub struct QuadraticVote {
    pub voter: Account,
    pub proposal_id: u64,
    pub vote_weight: u32,
    pub vote_choice: QuadraticVoteChoice,
    pub voting_power_used: u64,
    pub timestamp: u64,
}

/// A member's voting power in a circle.
#[derive(Clone, Copy, Debug, PartialEq, Eq, Structural)]
pub struct VotingPower {
    pub member: Account,
    pub circle_id: u64,
    pub token_balance: i128,
    pub quadratic_power: u64,
    pub last_updated: u64,
}

/// Proposal statistics of a circle.
#[derive(Clone, Copy, Debug, PartialEq, Eq, Structural)]
pub struct ProposalStats {
    pub total_proposals: u32,
    pub approved_proposals: u32,
    pub rejected_proposals: u32,
    pub executed_proposals: u32,
    pub average_participation: u32,
    pub average_voting_time: u64,
}

/// Opens a proposal for a vote of one voting period from `now`.
pub fn create_proposal(
    proposer: Account,
    circle_id: u64,
    proposal_type: ProposalType,
    title: String,
    description: String,
    execution_data: String,
    now: u64,
) -> (p: Proposal)
    requires
        now + VOTING_PERIOD <= u64::MAX,
    ensures
        p == (Proposal {
            id: PROPOSAL_ID,
            circle_id,
            proposer,
            proposal_type,
            title,
            description,
            created_timestamp: now,
            voting_start_timestamp: now,
            voting_end_timestamp: (now + VOTING_PERIOD) as u64,
            status: ProposalStatus::Active,
            for_votes: 0,
            against_votes: 0,
            total_voting_power: 0,
            quorum_met: false,
            execution_data,
        }),
{
    Proposal {
        id: PROPOSAL_ID,
        circle_id,
        proposer,
        proposal_type,
        title,
        description,
        created_timestamp: now,
        voting_start_timestamp: now,
        voting_end_timestamp: now + VOTING_PERIOD,
        status: ProposalStatus::Active,
        for_votes: 0,
        against_votes: 0,
        total_voting_power: 0,
        quorum_met: false,
        execution_data,
    }
}

/// The voting power a vote of `weight` costs: its square.
pub open spec fn vote_cost(weight: u32) -> int {
    (weight as int) * (weight as int)
}

/// Casts a quadratic vote of `weight` on the proposal.
///
/// `power` is the voter's voting power in the proposal's circle; the vote
/// costs `weight²` of it and counts that much for or against. The voter's
/// reputation metrics (`stored_metrics`) earn social capital; on success the
/// result is the metrics to store.
pub fn quadratic_vote(
    proposal: &mut Proposal,
    power: &mut VotingPower,
    weight: u32,
    choice: QuadraticVoteChoice,
    stored_metrics: Option<UserReputationMetrics>,
    now: u64,
) -> (res: Result<UserReputationMetrics, Rejection>)
    requires
        old(power).quadratic_power >= vote_cost(weight) ==> {
            &&& choice == QuadraticVoteChoice::For ==> old(proposal).for_votes + vote_cost(weight) <= u64::MAX
            &&& choice == QuadraticVoteChoice::Against ==> old(proposal).against_votes + vote_cost(weight) <= u64::MAX
            &&& metrics_or_fresh(stored_metrics, now).social_capital_score + GOVERNANCE_VOTE_BONUS <= u32::MAX
        },
    ensures
        old(power).quadratic_power < vote_cost(weight) ==> {
            &&& res == Err::<UserReputationMetrics, Rejection>(Rejection::InsufficientVotingPower)
            &&& *final(power) == *old(power)
            &&& *final(proposal) == *old(proposal)
        },
        old(power).quadratic_power >= vote_cost(weight) ==> {
            &&& res == Ok::<UserReputationMetrics, Rejection>(metrics_after_vote(metrics_or_fresh(stored_metrics, now), now))
            &&& ({
                let (f, a, p) = tallies_after_vote(old(proposal).for_votes, old(proposal).against_votes,
                    old(power).quadratic_power, weight, choice);
                &&& final(proposal).for_votes == f
                &&& final(proposal).against_votes == a
                &&& final(power).quadratic_power == p
            })
            &&& *final(power) == VotingPower { quadratic_power: final(power).quadratic_power, ..*old(power) }
            &&& *final(proposal) == Proposal {
                for_votes: final(proposal).for_votes,
                against_votes: final(proposal).against_votes,
                ..*old(proposal)
            }
        },
        old(power).quadratic_power >= (weight as int) * (weight as int) ==> {
            &&& final(power).quadratic_power == old(power).quadratic_power - (weight as int) * (weight as int)
            &&& choice == QuadraticVoteChoice::For ==> final(proposal).for_votes == old(proposal).for_votes + (weight as int) * (weight as int)
                && final(proposal).against_votes == old(proposal).against_votes
            &&& choice == QuadraticVoteChoice::Against ==> final(proposal).against_votes == old(proposal).against_votes + (weight as int) * (weight as int)
                && final(proposal).for_votes == old(proposal).for_votes
            &&& choice == QuadraticVoteChoice::Abstain ==> final(proposal).for_votes == old(proposal).for_votes
                && final(proposal).against_votes == old(proposal).against_votes
        },
{
    assert((weight as u64) * (weight as u64) <= u64::MAX) by (nonlinear_arith);
    let cost: u64 = (weight as u64) * (weight as u64);
    if power.quadratic_power < cost {
        return Err(Rejection::InsufficientVotingPower);
    }
    power.quadratic_power = power.quadratic_power - cost;
    match choice {
        QuadraticVoteChoice::For => { proposal.for_votes = proposal.for_votes + cost; },
        QuadraticVoteChoice::Against => { proposal.against_votes = proposal.against_votes + cost; },
        QuadraticVoteChoice::Abstain => {},
    }
    Ok(record_governance_vote(stored_metrics, now))
}

/// (for, against, remaining power) after a vote of `weight` for `choice`.
pub open spec fn tallies_after_vote(for_votes: u64, against_votes: u64, power: u64, weight: u32, choice: QuadraticVoteChoice) -> (int, int, int) {
    (
        if choice == QuadraticVoteChoice::For { for_votes + vote_cost(weight) } else { for_votes as int },
        if choice == QuadraticVoteChoice::Against { against_votes + vote_cost(weight) } else { against_votes as int },
        power - vote_cost(weight),
    )
}

/// A vote counts only on its own side: a vote for raises the votes for by
/// the weight squared and leaves the votes against alone, a vote against the
/// other way round, and an abstention moves neither tally.
pub proof fn lemma_vote_counts_on_its_side(for_votes: u64, against_votes: u64, power: u64, weight: u32, choice: QuadraticVoteChoice)
    ensures
        ({
            let (f, a, p) = tallies_after_vote(for_votes, against_votes, power, weight, choice);
            &&& p == power - (weight as int) * (weight as int)
            &&& choice == QuadraticVoteChoice::For ==> f == for_votes + (weight as int) * (weight as int) && a == against_votes
            &&& choice == QuadraticVoteChoice::Against ==> a == against_votes + (weight as int) * (weight as int) && f == for_votes
            &&& choice == QuadraticVoteChoice::Abstain ==> f == for_votes && a == against_votes
        }),
{
}

/// Voting power is never created: a vote for or against moves exactly its
/// cost from the voter's power to its side's tally, and an abstention spends
/// its cost without counting it.
pub proof fn lemma_vote_conserves_power(for_votes: u64, against_votes: u64, power: u64, weight: u32, choice: QuadraticVoteChoice)
    requires
        power >= vote_cost(weight),
    ensures
        ({
            let (f, a, p) = tallies_after_vote(for_votes, against_votes, power, weight, choice);
            &&& p >= 0
            &&& choice != QuadraticVoteChoice::Abstain ==> f + a + p == for_votes + against_votes + power
            &&& choice == QuadraticVoteChoice::Abstain ==> f + a + p == for_votes + against_votes + power - vote_cost(weight)
        }),
{
}

/// Marks the proposal approved.
pub fn execute_proposal(proposal: &mut Proposal)
    ensures
        *final(proposal) == (Proposal { status: ProposalStatus::Approved, ..*old(proposal) }),
{
    proposal.status = ProposalStatus::Approved;
}

/// The voting power of a member's token balance, weighted by their RI.
pub open spec fn quadratic_power_of(token_balance: i128, ri: ReliabilityIndex) -> u64 {
    if token_balance > 0 {
        let weighted = div_toward_zero((token_balance as int) * (ri.points as int), 1000);
        let scaled = ((weighted as u64) / 1000) as u64;
        if scaled > 1 { scaled } else { 1 }
    } else {
        0
    }
}

/// Recomputes a member's voting power from their token balance: the
/// balance times RI/1000, in thousands, at least 1 for a positive balance.
///
/// `stored_ri` is the member's stored index.
pub fn update_voting_power(
    member: Account,
    circle_id: u64,
    token_balance: i128,
    stored_ri: Option<ReliabilityIndex>,
    now: u64,
) -> (vp: VotingPower)
    requires
        token_balance > 0 ==> (token_balance as int) * (ri_or_fresh(stored_ri, now).points as int) <= i128::MAX,
    ensures
        vp == (VotingPower {
            member,
            circle_id,
            token_balance,
            quadratic_power: quadratic_power_of(token_balance, ri_or_fresh(stored_ri, now)),
            last_updated: now,
        }),
{
    let ri = get_ri_internal(stored_ri, now);
    let quadratic_power: u64 = if token_balance > 0 {
        assert((token_balance as int) * (ri.points as int) >= 0) by (nonlinear_arith)
            requires token_balance > 0;
        let weighted_balance = (token_balance * (ri.points as i128)) / 1000;
        let balance_u64 = weighted_balance as u64;
        let scaled = balance_u64 / 1000;
        if scaled > 1 { scaled } else { 1 }
    } else {
        0
    };
    VotingPower { member, circle_id, token_balance, quadratic_power, last_updated: now }
}

/// A member's voting power: the stored one, or none at all.
pub fn get_voting_power(stored: Option<VotingPower>, member: Account, circle_id: u64) -> (vp: VotingPower)
    ensures
        vp == (match stored {
            Some(v) => v,
            None => VotingPower { member, circle_id, token_balance: 0, quadratic_power: 0, last_updated: 0 },
        }),
{
    match stored {
        Some(v) => v,
        None => VotingPower { member, circle_id, token_balance: 0, quadratic_power: 0, last_updated: 0 },
    }
}

/// A circle's proposal statistics: the stored ones, or all zero.
pub fn get_proposal_stats(stored: Option<ProposalStats>) -> (s: ProposalStats)
    ensures
        s == (match stored {
            Some(v) => v,
            None => ProposalStats {
                total_proposals: 0,
                approved_proposals: 0,
                rejected_proposals: 0,
                executed_proposals: 0,
                average_participation: 0,
                average_voting_time: 0,
            },
        }),
{
    match stored {
        Some(v) => v,
        None => ProposalStats {
            total_proposals: 0,
            approved_proposals: 0,
            rejected_proposals: 0,
            executed_proposals: 0,
            average_participation: 0,
            average_voting_time: 0,
        },
    }
}

/// A proposal to change a circle's cycle duration.
#[derive(Clone, Copy, Debug, PartialEq, Eq, Structural)]
pub struct DurationProposal {
    pub id: u64,
    pub new_duration: u64,
    pub votes_for: u32,
    pub votes_against: u32,
    pub end_time: u64,
    pub is_active: bool,
}

/// Proposes a new cycle duration; the proposer's vote counts for it and the
/// vote runs for one voting period from `now`.
pub fn propose_duration(new_duration: u64, now: u64) -> (p: DurationProposal)
    requires
        now + VOTING_PERIOD <= u64::MAX,
    ensures
        p == (DurationProposal {
            id: PROPOSAL_ID,
            new_duration,
            votes_for: 1,
            votes_against: 0,
            end_time: (now + VOTING_PERIOD) as u64,
            is_active: true,
        }),
{
    DurationProposal { id: PROPOSAL_ID, new_duration, votes_for: 1, votes_against: 0, end_time: now + VOTING_PERIOD, is_active: true }
}

/// Counts one vote for or against a duration proposal.
pub fn vote_duration(p: &mut DurationProposal, approve: bool)
    requires
        approve ==> old(p).votes_for < u32::MAX,
        !approve ==> old(p).votes_against < u32::MAX,
    ensures
        *final(p) == (if approve {
            DurationProposal { votes_for: (old(p).votes_for + 1) as u32, ..*old(p) }
        } else {
            DurationProposal { votes_against: (old(p).votes_against + 1) as u32, ..*old(p) }
        }),
{
    if approve {
        p.votes_for = p.votes_for + 1;
    } else {
        p.votes_against = p.votes_against + 1;
    }
}

} // verus!
