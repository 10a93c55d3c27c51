//! Verified core of the SoroSusu savings-circle protocol.
//!
//! Every function here is a pure transition: it takes the values that the
//! contract loaded from its ledger storage (and the ledger time), decides what
//! the protocol rules decide, and hands back the values to store.
mod account;

pub use account::Account;

pub mod reliability_oracle;
pub mod social_vouching;
pub mod early_bird_bonus;
pub mod reputation;
pub mod rejection;
pub mod circle;
pub mod payouts;
pub mod governance;
pub mod grants;
pub mod leniency;
pub mod appeals;
pub mod error;
pub mod audit;
pub mod impact;

pub use appeals::{AppealStatus, ReputationAppeal};
pub use circle::{CircleInfo, CollateralInfo, CollateralStatus, Member, MemberStatus};
pub use early_bird_bonus::{EarlyBirdRecord, EarlyBirdRoundStats};
pub use error::Error;
pub use governance::{Proposal, ProposalStats, ProposalStatus, ProposalType, QuadraticVote, QuadraticVoteChoice, VotingPower};
pub use leniency::{LeniencyGrant, LeniencyRequest, LeniencyRequestStatus, LeniencyStats, LeniencyVote, SocialCapital};
pub use rejection::Rejection;
pub use reliability_oracle::{ReputationProof, ReputationRecord, ReputationTier};
pub use reputation::{ReliabilityIndex, UserReputationMetrics};
pub use social_vouching::{VouchRecord, VouchStatus, VoucherProfile};
pub use impact::{ImpactBadge, ImpactCertificate, ImpactCertificateMetadata, ImpactTier, MilestoneProgress, ProgressBar};
