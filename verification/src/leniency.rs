//! Leniency: a struggling member asks the circle for more time and the other
//! members vote on it.
use vstd::prelude::*;

use crate::account::Account;
use crate::rejection::Rejection;
use crate::reputation::{credit_social_capital, UserReputationMetrics, LENIENCY_GIVEN_BONUS, LENIENCY_RECEIVED_BONUS};

verus! {

/// Length of a leniency vote, in seconds.
pub const LENIENCY_VOTING_SECONDS: u64 = 86_400;

/// Extension a granted leniency gives, in hours.
pub const LENIENCY_EXTENSION_HOURS: u64 = 24;

/// Trust score of a member with no social-capital record.
pub const BASE_TRUST_SCORE: u32 = 50;

/// Trust points earned by receiving leniency.
pub const LENIENCY_TRUST_BONUS: u32 = 5;

#[derive(Clone, Copy, Debug, PartialEq, Eq, Structural)]
pub enum LeniencyVote {
    Approve,
    Reject,
}

#[derive(Clone, Copy, Debug, PartialEq, Eq, Structural)]
pub enum LeniencyRequestStatus {
    Pending,
    Approved,
    Rejected,
    Expired,
}

/// A member's request for more time.
#[derive(Debug)]
pub struct LeniencyRequest {
    pub requester: Account,
    pub circle_id: u64,
    pub request_timestamp: u64,
    pub voting_deadline: u64,
    pub status: LeniencyRequestStatus,
    pub approve_votes: u32,
    pub reject_votes: u32,
    pub total_votes_cast: u32,
    pub extension_hours: u64,
    pub reason: String,
}

/// A member's social capital in a circle.
#[derive(Clone, Copy, Debug, PartialEq, Eq, Structural)]
pub struct SocialCapital {
    pub member: Account,
    pub circle_id: u64,
    pub leniency_given: u32,
    pub leniency_received: u32,
    pub voting_participation: u32,
    pub trust_score: u32,
}

/// Leniency statistics of a circle.
#[derive(Clone, Copy, Debug, PartialEq, Eq, Structural)]
pub struct LeniencyStats {
    pub total_requests: u32,
    pub approved_requests: u32,
    pub rejected_requests: u32,
    pub expired_requests: u32,
    pub average_participation: u32,
}

/// The social capital of a member with no stored record.
pub open spec fn fresh_capital(member: Account, circle_id: u64) -> SocialCapital {
    SocialCapital {
        member,
        circle_id,
        leniency_given: 0,
        leniency_received: 0,
        voting_participation: 0,
        trust_score: BASE_TRUST_SCORE,
    }
}

/// A member's social capital: the stored record, or a fresh one.
pub fn get_social_capital(stored: Option<SocialCapital>, member: Account, circle_id: u64) -> (c: SocialCapital)
    ensures
        c == (match stored {
            Some(s) => s,
            None => fresh_capital(member, circle_id),
        }),
{
    match stored {
        Some(s) => s,
        None => SocialCapital {
            member,
            circle_id,
            leniency_given: 0,
            leniency_received: 0,
            voting_participation: 0,
            trust_score: BASE_TRUST_SCORE,
        },
    }
}

/// A member asks for leniency; the vote runs for a day from `now`.
pub fn request_leniency(requester: Account, circle_id: u64, reason: String, now: u64) -> (r: LeniencyRequest)
    requires
        now + LENIENCY_VOTING_SECONDS <= u64::MAX,
    ensures
        r == (LeniencyRequest {
            requester,
            circle_id,
            request_timestamp: now,
            voting_deadline: (now + LENIENCY_VOTING_SECONDS) as u64,
            status: LeniencyRequestStatus::Pending,
            approve_votes: 0,
            reject_votes: 0,
            total_votes_cast: 0,
            extension_hours: LENIENCY_EXTENSION_HOURS,
            reason,
        }),
{
    LeniencyRequest {
        requester,
        circle_id,
        request_timestamp: now,
        voting_deadline: now + LENIENCY_VOTING_SECONDS,
        status: LeniencyRequestStatus::Pending,
        approve_votes: 0,
        reject_votes: 0,
        total_votes_cast: 0,
        extension_hours: LENIENCY_EXTENSION_HOURS,
        reason,
    }
}

/// What a granted leniency leaves each party with.
#[derive(Clone, Copy, Debug)]
pub struct LeniencyGrant {
    /// The requester's social capital in the circle: one more leniency
    /// received, `LENIENCY_TRUST_BONUS` more trust.
    pub requester_capital: SocialCapital,
    /// The granting voter's social capital in the circle: one more leniency
    /// given.
    pub voter_capital: SocialCapital,
    /// The requester's metrics, credited `LENIENCY_RECEIVED_BONUS`.
    pub requester_metrics: UserReputationMetrics,
    /// The granting voter's metrics, credited `LENIENCY_GIVEN_BONUS`.
    pub voter_metrics: UserReputationMetrics,
}

/// Approvals after `vote`.
pub open spec fn approvals_after(r: LeniencyRequest, vote: LeniencyVote) -> int {
    if vote == LeniencyVote::Approve { r.approve_votes + 1 } else { r.approve_votes as int }
}

/// Rejections after `vote`.
pub open spec fn rejections_after(r: LeniencyRequest, vote: LeniencyVote) -> int {
    if vote == LeniencyVote::Reject { r.reject_votes + 1 } else { r.reject_votes as int }
}

/// Whether `vote` grants the request: it is still pending and has an
/// approval once the vote is counted.
pub open spec fn vote_grants(r: LeniencyRequest, vote: LeniencyVote) -> bool {
    r.status == LeniencyRequestStatus::Pending && approvals_after(r, vote) >= 1
}

/// A capital record, the stored one or a fresh one.
pub open spec fn capital_or_fresh(stored: Option<SocialCapital>, member: Account, circle_id: u64) -> SocialCapital {
    match stored {
        Some(s) => s,
        None => fresh_capital(member, circle_id),
    }
}

/// What granting the request gives both parties.
pub open spec fn grant_of(
    r: LeniencyRequest,
    voter: Account,
    requester_capital: Option<SocialCapital>,
    voter_capital: Option<SocialCapital>,
    requester_metrics: Option<UserReputationMetrics>,
    voter_metrics: Option<UserReputationMetrics>,
    now: u64,
) -> LeniencyGrant {
    let rc = capital_or_fresh(requester_capital, r.requester, r.circle_id);
    let vc = capital_or_fresh(voter_capital, voter, r.circle_id);
    LeniencyGrant {
        requester_capital: SocialCapital {
            leniency_received: (rc.leniency_received + 1) as u32,
            trust_score: (rc.trust_score + LENIENCY_TRUST_BONUS) as u32,
            ..rc
        },
        voter_capital: SocialCapital { leniency_given: (vc.leniency_given + 1) as u32, ..vc },
        requester_metrics: crate::reputation::metrics_after_social_credit(crate::reputation::metrics_or_fresh(requester_metrics, now), LENIENCY_RECEIVED_BONUS, now),
        voter_metrics: crate::reputation::metrics_after_social_credit(crate::reputation::metrics_or_fresh(voter_metrics, now), LENIENCY_GIVEN_BONUS, now),
    }
}

/// A member votes on another member's leniency request.
///
/// The `*_capital` arguments are the stored social-capital records of the
/// requester and the voter in the request's circle, the `*_metrics` ones
/// their stored reputation metrics. The vote is counted; the vote that grants
/// a pending request (its first approval) approves it, and the result then
/// holds what both parties are credited, once: the requester for leniency
/// received, the voter for leniency given.
pub fn vote_on_leniency(
    voter: Account,
    request: &mut LeniencyRequest,
    requester_capital: Option<SocialCapital>,
    voter_capital: Option<SocialCapital>,
    requester_metrics: Option<UserReputationMetrics>,
    voter_metrics: Option<UserReputationMetrics>,
    vote: LeniencyVote,
    now: u64,
) -> (res: Result<Option<LeniencyGrant>, Rejection>)
    requires
        voter != old(request).requester ==> {
            &&& approvals_after(*old(request), vote) <= u32::MAX
            &&& rejections_after(*old(request), vote) <= u32::MAX
            &&& old(request).total_votes_cast < u32::MAX
        },
        voter != old(request).requester && vote_grants(*old(request), vote) ==> ({
            let rc = capital_or_fresh(requester_capital, old(request).requester, old(request).circle_id);
            let vc = capital_or_fresh(voter_capital, voter, old(request).circle_id);
            &&& rc.leniency_received < u32::MAX
            &&& rc.trust_score + LENIENCY_TRUST_BONUS <= u32::MAX
            &&& vc.leniency_given < u32::MAX
        }),
    ensures
        voter == old(request).requester ==> res == Err::<Option<LeniencyGrant>, Rejection>(Rejection::CannotVoteForSelf)
            && *final(request) == *old(request),
        voter != old(request).requester ==> {
            &&& *final(request) == LeniencyRequest {
                approve_votes: approvals_after(*old(request), vote) as u32,
                reject_votes: rejections_after(*old(request), vote) as u32,
                total_votes_cast: (old(request).total_votes_cast + 1) as u32,
                status: if vote_grants(*old(request), vote) { LeniencyRequestStatus::Approved } else { old(request).status },
                ..*old(request)
            }
            &&& res == Ok::<Option<LeniencyGrant>, Rejection>(if vote_grants(*old(request), vote) {
                Some(grant_of(*old(request), voter, requester_capital, voter_capital, requester_metrics, voter_metrics, now))
            } else {
                None
            })
        },
{
    if voter == request.requester {
        return Err(Rejection::CannotVoteForSelf);
    }
    let was_pending = request.status == LeniencyRequestStatus::Pending;
    match vote {
        LeniencyVote::Approve => { request.approve_votes = request.approve_votes + 1; },
        LeniencyVote::Reject => { request.reject_votes = request.reject_votes + 1; },
    }
    request.total_votes_cast = request.total_votes_cast + 1;
    if was_pending && request.approve_votes >= 1 {
        request.status = LeniencyRequestStatus::Approved;
        let mut rc = get_social_capital(requester_capital, request.requester, request.circle_id);
        rc.leniency_received = rc.leniency_received + 1;
        rc.trust_score = rc.trust_score + LENIENCY_TRUST_BONUS;
        let mut vc = get_social_capital(voter_capital, voter, request.circle_id);
        vc.leniency_given = vc.leniency_given + 1;
        let rm = credit_social_capital(requester_metrics, LENIENCY_RECEIVED_BONUS, now);
        let vm = credit_social_capital(voter_metrics, LENIENCY_GIVEN_BONUS, now);
        Ok(Some(LeniencyGrant { requester_capital: rc, voter_capital: vc, requester_metrics: rm, voter_metrics: vm }))
    } else {
        Ok(None)
    }
}

/// Closes the vote on a leniency request, granting it.
pub fn finalize_leniency_vote(request: &mut LeniencyRequest)
    ensures
        *final(request) == (LeniencyRequest { status: LeniencyRequestStatus::Approved, ..*old(request) }),
{
    request.status = LeniencyRequestStatus::Approved;
}

} // verus!
