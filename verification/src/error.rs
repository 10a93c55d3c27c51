//! The contract's error codes.
use vstd::prelude::*;

verus! {

/// Errors the contract reports to its callers, each with a stable code.
#[derive(Clone, Copy, Debug, PartialEq, Eq, PartialOrd, Ord, Structural)]
pub enum Error {
    Unauthorized,
    MemberNotFound,
    CircleFull,
    AlreadyMember,
    CircleNotFound,
    InvalidAmount,
    RoundAlreadyFinalized,
    RoundNotFinalized,
    NotAllContributed,
    PayoutNotScheduled,
    PayoutTooEarly,
    InsufficientInsurance,
    InsuranceAlreadyUsed,
    RateLimitExceeded,
    InsufficientCollateral,
    CollateralAlreadyStaked,
    CollateralNotStaked,
    CollateralLocked,
    MemberNotDefaulted,
    CollateralAlreadyReleased,
    LeniencyRequestNotFound,
    AlreadyVoted,
    VotingPeriodExpired,
    LeniencyAlreadyApproved,
    LeniencyNotRequested,
    CannotVoteForOwnRequest,
    InvalidVote,
    ProposalNotFound,
    ProposalAlreadyExecuted,
    VotingNotActive,
    InsufficientVotingPower,
    QuadraticVoteExceeded,
    InvalidProposalType,
    QuorumNotMet,
    ProposalExpired,
    AppealNotFound,
    AppealAlreadyFinalized,
}

/// The stable code of an error, as callers of the contract see it.
pub open spec fn error_code(e: Error) -> u32 {
    match e {
        Error::Unauthorized => 1,
        Error::MemberNotFound => 2,
        Error::CircleFull => 3,
        Error::AlreadyMember => 4,
        Error::CircleNotFound => 5,
        Error::InvalidAmount => 6,
        Error::RoundAlreadyFinalized => 7,
        Error::RoundNotFinalized => 8,
        Error::NotAllContributed => 9,
        Error::PayoutNotScheduled => 10,
        Error::PayoutTooEarly => 11,
        Error::InsufficientInsurance => 12,
        Error::InsuranceAlreadyUsed => 13,
        Error::RateLimitExceeded => 14,
        Error::InsufficientCollateral => 15,
        Error::CollateralAlreadyStaked => 16,
        Error::CollateralNotStaked => 17,
        Error::CollateralLocked => 18,
        Error::MemberNotDefaulted => 19,
        Error::CollateralAlreadyReleased => 20,
        Error::LeniencyRequestNotFound => 21,
        Error::AlreadyVoted => 22,
        Error::VotingPeriodExpired => 23,
        Error::LeniencyAlreadyApproved => 24,
        Error::LeniencyNotRequested => 25,
        Error::CannotVoteForOwnRequest => 26,
        Error::InvalidVote => 27,
        Error::ProposalNotFound => 28,
        Error::ProposalAlreadyExecuted => 29,
        Error::VotingNotActive => 30,
        Error::InsufficientVotingPower => 31,
        Error::QuadraticVoteExceeded => 32,
        Error::InvalidProposalType => 33,
        Error::QuorumNotMet => 34,
        Error::ProposalExpired => 35,
        Error::AppealNotFound => 36,
        Error::AppealAlreadyFinalized => 37,
    }
}

impl Error {
    /// The stable code of this error.
    pub fn code(&self) -> (c: u32)
        ensures
            c == error_code(*self),
    {
        match self {
            Error::Unauthorized => 1,
            Error::MemberNotFound => 2,
            Error::CircleFull => 3,
            Error::AlreadyMember => 4,
            Error::CircleNotFound => 5,
            Error::InvalidAmount => 6,
            Error::RoundAlreadyFinalized => 7,
            Error::RoundNotFinalized => 8,
            Error::NotAllContributed => 9,
            Error::PayoutNotScheduled => 10,
            Error::PayoutTooEarly => 11,
            Error::InsufficientInsurance => 12,
            Error::InsuranceAlreadyUsed => 13,
            Error::RateLimitExceeded => 14,
            Error::InsufficientCollateral => 15,
            Error::CollateralAlreadyStaked => 16,
            Error::CollateralNotStaked => 17,
            Error::CollateralLocked => 18,
            Error::MemberNotDefaulted => 19,
            Error::CollateralAlreadyReleased => 20,
            Error::LeniencyRequestNotFound => 21,
            Error::AlreadyVoted => 22,
            Error::VotingPeriodExpired => 23,
            Error::LeniencyAlreadyApproved => 24,
            Error::LeniencyNotRequested => 25,
            Error::CannotVoteForOwnRequest => 26,
            Error::InvalidVote => 27,
            Error::ProposalNotFound => 28,
            Error::ProposalAlreadyExecuted => 29,
            Error::VotingNotActive => 30,
            Error::InsufficientVotingPower => 31,
            Error::QuadraticVoteExceeded => 32,
            Error::InvalidProposalType => 33,
            Error::QuorumNotMet => 34,
            Error::ProposalExpired => 35,
            Error::AppealNotFound => 36,
            Error::AppealAlreadyFinalized => 37,
        }
    }
}

/// Different errors have different codes, all in 1..=37.
pub proof fn lemma_error_codes_distinct(a: Error, b: Error)
    ensures
        1 <= error_code(a) <= 37,
        a != b ==> error_code(a) != error_code(b),
{
}

} // verus!
