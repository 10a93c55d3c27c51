//! The reasons for which the contract aborts a call.
use vstd::prelude::*;

verus! {

/// Why the contract turns a call down; the call then aborts with
/// [`Rejection::message`] and nothing it did is kept.
#[derive(Clone, Copy, Debug, PartialEq, Eq, Structural)]
pub enum Rejection {
    CircleFull,
    CircleNotFound,
    NotInitialized,
    Unauthorized,
    RoundAlreadyFinalized,
    NotAllContributed,
    RoundNotFinalized,
    UnauthorizedRecipient,
    NoRecipientSet,
    PayoutNotScheduled,
    PayoutTooEarly,
    CollateralNotRequired,
    CollateralAlreadyStaked,
    InsufficientCollateral,
    MemberNotFound,
    MemberAlreadyDefaulted,
    OnlyDefaultedMayAppeal,
    AppealAlreadyExists,
    AppealNotFound,
    AppealAlreadyFinalized,
    VotingPeriodExpired,
    AlreadyVoted,
    VoterNotFound,
    AppealNotApproved,
    CannotVoteForSelf,
    LeniencyRequestNotFound,
    ProposalNotFound,
    VotingPowerNotFound,
    InsufficientVotingPower,
    InsufficientFunds,
    InsufficientFundsAndBuddyDeposit,
    LockedByDefault,
}

/// The text that goes with each value.
pub open spec fn rejection_message(v: Rejection) -> Seq<char> {
    match v {
        Rejection::CircleFull => "Circle full"@,
        Rejection::CircleNotFound => "Circle not found"@,
        Rejection::NotInitialized => "Not initialized"@,
        Rejection::Unauthorized => "Unauthorized"@,
        Rejection::RoundAlreadyFinalized => "Round already finalized"@,
        Rejection::NotAllContributed => "Not all contributed"@,
        Rejection::RoundNotFinalized => "Round not finalized"@,
        Rejection::UnauthorizedRecipient => "Unauthorized recipient"@,
        Rejection::NoRecipientSet => "No recipient set"@,
        Rejection::PayoutNotScheduled => "Payout not scheduled"@,
        Rejection::PayoutTooEarly => "Payout too early"@,
        Rejection::CollateralNotRequired => "Collateral not required for this circle"@,
        Rejection::CollateralAlreadyStaked => "Collateral already staked"@,
        Rejection::InsufficientCollateral => "Insufficient collateral amount"@,
        Rejection::MemberNotFound => "Member not found"@,
        Rejection::MemberAlreadyDefaulted => "Member already defaulted"@,
        Rejection::OnlyDefaultedMayAppeal => "Only defaulted members can appeal"@,
        Rejection::AppealAlreadyExists => "Appeal already exists"@,
        Rejection::AppealNotFound => "Appeal not found"@,
        Rejection::AppealAlreadyFinalized => "Appeal already finalized"@,
        Rejection::VotingPeriodExpired => "Voting period expired"@,
        Rejection::AlreadyVoted => "Already voted"@,
        Rejection::VoterNotFound => "Voter not found"@,
        Rejection::AppealNotApproved => "Appeal not approved"@,
        Rejection::CannotVoteForSelf => "Cannot vote for self"@,
        Rejection::LeniencyRequestNotFound => "Leniency request not found"@,
        Rejection::ProposalNotFound => "Proposal not found"@,
        Rejection::VotingPowerNotFound => "Voting power not found"@,
        Rejection::InsufficientVotingPower => "Insufficient voting power"@,
        Rejection::InsufficientFunds => "Insufficient funds"@,
        Rejection::InsufficientFundsAndBuddyDeposit => "Insufficient funds and buddy deposit"@,
        Rejection::LockedByDefault => "locked due to a default"@,
    }
}

impl Rejection {
    /// The message with which the contract aborts.
    pub fn message(&self) -> (m: &'static str)
        ensures
            m@ == rejection_message(*self),
    {
        match self {
            Rejection::CircleFull => "Circle full",
            Rejection::CircleNotFound => "Circle not found",
            Rejection::NotInitialized => "Not initialized",
            Rejection::Unauthorized => "Unauthorized",
            Rejection::RoundAlreadyFinalized => "Round already finalized",
            Rejection::NotAllContributed => "Not all contributed",
            Rejection::RoundNotFinalized => "Round not finalized",
            Rejection::UnauthorizedRecipient => "Unauthorized recipient",
            Rejection::NoRecipientSet => "No recipient set",
            Rejection::PayoutNotScheduled => "Payout not scheduled",
            Rejection::PayoutTooEarly => "Payout too early",
            Rejection::CollateralNotRequired => "Collateral not required for this circle",
            Rejection::CollateralAlreadyStaked => "Collateral already staked",
            Rejection::InsufficientCollateral => "Insufficient collateral amount",
            Rejection::MemberNotFound => "Member not found",
            Rejection::MemberAlreadyDefaulted => "Member already defaulted",
            Rejection::OnlyDefaultedMayAppeal => "Only defaulted members can appeal",
            Rejection::AppealAlreadyExists => "Appeal already exists",
            Rejection::AppealNotFound => "Appeal not found",
            Rejection::AppealAlreadyFinalized => "Appeal already finalized",
            Rejection::VotingPeriodExpired => "Voting period expired",
            Rejection::AlreadyVoted => "Already voted",
            Rejection::VoterNotFound => "Voter not found",
            Rejection::AppealNotApproved => "Appeal not approved",
            Rejection::CannotVoteForSelf => "Cannot vote for self",
            Rejection::LeniencyRequestNotFound => "Leniency request not found",
            Rejection::ProposalNotFound => "Proposal not found",
            Rejection::VotingPowerNotFound => "Voting power not found",
            Rejection::InsufficientVotingPower => "Insufficient voting power",
            Rejection::InsufficientFunds => "Insufficient funds",
            Rejection::InsufficientFundsAndBuddyDeposit => "Insufficient funds and buddy deposit",
            Rejection::LockedByDefault => "locked due to a default",
        }
    }
}

} // verus!
