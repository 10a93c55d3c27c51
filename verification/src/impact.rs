//! Impact certificates: a grantee's progress through the phases of a funded
//! project, shown as a badge, a tier and a progress bar.
use vstd::prelude::*;

use crate::account::Account;

verus! {

/// Impact score of a new certificate, in basis points.
pub const INITIAL_IMPACT_SCORE: u32 = 5000;

/// Highest impact score, in basis points.
pub const MAX_IMPACT_SCORE: u32 = 10_000;

/// Where a certificate's project stands.
#[derive(Clone, Copy, Debug, PartialEq, Eq, Structural)]
pub enum MilestoneProgress {
    NotStarted,
    InProgress,
    Completed,
}

/// The badge a certificate shows for the phases completed.
#[derive(Clone, Copy, Debug, PartialEq, Eq, Structural)]
pub enum ImpactBadge {
    Newcomer,
    Contributor,
    Achiever,
    ImpactMaster,
}

/// The tier a certificate's impact score earns.
#[derive(Clone, Copy, Debug, PartialEq, Eq, Structural)]
pub enum ImpactTier {
    Bronze,
    Silver,
    Gold,
    Platinum,
    Diamond,
}

/// Why a certificate operation is refused.
#[derive(Clone, Copy, Debug, PartialEq, Eq, Structural)]
pub enum ImpactRefusal {
    NoPhases,
    AlreadyExists,
    NotFound,
    PhaseBeyondPlan,
}

/// The text that goes with each badge.
pub open spec fn badge_symbol(b: ImpactBadge) -> Seq<char> {
    match b {
        ImpactBadge::Newcomer => "NEWCOMER"@,
        ImpactBadge::Contributor => "CONTRIBUTOR"@,
        ImpactBadge::Achiever => "ACHIEVER"@,
        ImpactBadge::ImpactMaster => "IMPACT_MASTER"@,
    }
}

/// The text that goes with each tier.
pub open spec fn tier_symbol(t: ImpactTier) -> Seq<char> {
    match t {
        ImpactTier::Bronze => "BRONZE"@,
        ImpactTier::Silver => "SILVER"@,
        ImpactTier::Gold => "GOLD"@,
        ImpactTier::Platinum => "PLATINUM"@,
        ImpactTier::Diamond => "DIAMOND"@,
    }
}

/// The text that goes with each refusal.
pub open spec fn impact_refusal_message(r: ImpactRefusal) -> Seq<char> {
    match r {
        ImpactRefusal::NoPhases => "Certificate needs at least one phase"@,
        ImpactRefusal::AlreadyExists => "Certificate already exists"@,
        ImpactRefusal::NotFound => "Certificate not found"@,
        ImpactRefusal::PhaseBeyondPlan => "Phase beyond the planned phases"@,
    }
}

impl ImpactBadge {
    /// The symbol under which the badge is published.
    pub fn symbol(&self) -> (s: &'static str)
        ensures
            s@ == badge_symbol(*self),
    {
        match self {
            ImpactBadge::Newcomer => "NEWCOMER",
            ImpactBadge::Contributor => "CONTRIBUTOR",
            ImpactBadge::Achiever => "ACHIEVER",
            ImpactBadge::ImpactMaster => "IMPACT_MASTER",
        }
    }
}

impl ImpactTier {
    /// The symbol under which the tier is published.
    pub fn symbol(&self) -> (s: &'static str)
        ensures
            s@ == tier_symbol(*self),
    {
        match self {
            ImpactTier::Bronze => "BRONZE",
            ImpactTier::Silver => "SILVER",
            ImpactTier::Gold => "GOLD",
            ImpactTier::Platinum => "PLATINUM",
            ImpactTier::Diamond => "DIAMOND",
        }
    }
}

impl ImpactRefusal {
    /// The message with which the contract aborts.
    pub fn message(&self) -> (m: &'static str)
        ensures
            m@ == impact_refusal_message(*self),
    {
        match self {
            ImpactRefusal::NoPhases => "Certificate needs at least one phase",
            ImpactRefusal::AlreadyExists => "Certificate already exists",
            ImpactRefusal::NotFound => "Certificate not found",
            ImpactRefusal::PhaseBeyondPlan => "Phase beyond the planned phases",
        }
    }
}

/// A grantee's impact certificate, as stored.
#[derive(Debug)]
pub struct ImpactCertificate {
    pub id: u128,
    pub grantee: Account,
    pub planned_phases: u32,
    pub phases_completed: u32,
    pub impact_score: u32,
    pub metadata_uri: String,
}

/// What a certificate shows after a milestone update.
#[derive(Clone, Copy, Debug, PartialEq, Eq, Structural)]
pub struct ImpactCertificateMetadata {
    pub id: u128,
    pub grantee: Account,
    /// The phases reached so far: those completed and the one under way,
    /// never more than planned.
    pub total_phases: u32,
    pub phases_completed: u32,
    pub impact_score: u32,
    pub on_chain_badge: ImpactBadge,
    pub milestone_status: MilestoneProgress,
}

/// What a progress bar shows of a certificate.
#[derive(Clone, Copy, Debug, PartialEq, Eq, Structural)]
pub struct ProgressBar {
    /// Completed share of the planned phases, in percent, rounded down.
    pub progress_percent: u32,
    pub phases_completed: u32,
    pub planned_phases: u32,
    pub badge: ImpactBadge,
    pub tier: ImpactTier,
    pub status: MilestoneProgress,
}

impl ImpactCertificate {
    /// A certificate plans at least one phase, has completed no more than
    /// planned, and its score is within 10 000 bps.
    pub open spec fn well_formed(&self) -> bool {
        &&& self.planned_phases > 0
        &&& self.phases_completed <= self.planned_phases
        &&& self.impact_score <= MAX_IMPACT_SCORE
    }
}

/// The badge for `completed` of `planned` phases: newcomer before the first,
/// master once all are done, contributor before half, achiever from half on.
pub open spec fn badge_of(completed: u32, planned: u32) -> ImpactBadge {
    if completed == 0 {
        ImpactBadge::Newcomer
    } else if completed >= planned {
        ImpactBadge::ImpactMaster
    } else if 2 * completed < planned {
        ImpactBadge::Contributor
    } else {
        ImpactBadge::Achiever
    }
}

/// The status for `completed` of `planned` phases.
pub open spec fn status_of(completed: u32, planned: u32) -> MilestoneProgress {
    if completed == 0 {
        MilestoneProgress::NotStarted
    } else if completed >= planned {
        MilestoneProgress::Completed
    } else {
        MilestoneProgress::InProgress
    }
}

/// The tier an impact score earns.
pub open spec fn tier_of(score: u32) -> ImpactTier {
    if score >= 9000 {
        ImpactTier::Diamond
    } else if score >= 8000 {
        ImpactTier::Platinum
    } else if score >= 7000 {
        ImpactTier::Gold
    } else if score >= 6000 {
        ImpactTier::Silver
    } else {
        ImpactTier::Bronze
    }
}

/// The score after `impact` bps are added, kept within 0..=10 000.
pub open spec fn score_after(score: u32, impact: i128) -> u32 {
    let s = score + impact;
    (if s < 0 { 0 } else if s < MAX_IMPACT_SCORE { s } else { MAX_IMPACT_SCORE as int }) as u32
}

/// The phases reached so far: the completed ones and the one under way.
pub open spec fn phases_reached(completed: u32, planned: u32) -> u32 {
    if completed < planned { (completed + 1) as u32 } else { planned }
}

/// What a certificate with these numbers shows.
pub open spec fn metadata_of(id: u128, grantee: Account, planned: u32, completed: u32, score: u32) -> ImpactCertificateMetadata {
    ImpactCertificateMetadata {
        id,
        grantee,
        total_phases: phases_reached(completed, planned),
        phases_completed: completed,
        impact_score: score,
        on_chain_badge: badge_of(completed, planned),
        milestone_status: status_of(completed, planned),
    }
}

fn badge_for(completed: u32, planned: u32) -> (b: ImpactBadge)
    ensures
        b == badge_of(completed, planned),
{
    if completed == 0 {
        ImpactBadge::Newcomer
    } else if completed >= planned {
        ImpactBadge::ImpactMaster
    } else if (completed as u64) * 2 < planned as u64 {
        ImpactBadge::Contributor
    } else {
        ImpactBadge::Achiever
    }
}

fn status_for(completed: u32, planned: u32) -> (s: MilestoneProgress)
    ensures
        s == status_of(completed, planned),
{
    if completed == 0 {
        MilestoneProgress::NotStarted
    } else if completed >= planned {
        MilestoneProgress::Completed
    } else {
        MilestoneProgress::InProgress
    }
}

fn tier_for(score: u32) -> (t: ImpactTier)
    ensures
        t == tier_of(score),
{
    if score >= 9000 {
        ImpactTier::Diamond
    } else if score >= 8000 {
        ImpactTier::Platinum
    } else if score >= 7000 {
        ImpactTier::Gold
    } else if score >= 6000 {
        ImpactTier::Silver
    } else {
        ImpactTier::Bronze
    }
}

/// Issues certificate `id` to `grantee` for a project of `total_phases`
/// phases: nothing completed, score `INITIAL_IMPACT_SCORE`. `already_exists`
/// says whether a certificate is stored under `id`.
pub fn initialize_impact_certificate(
    already_exists: bool,
    grantee: Account,
    id: u128,
    total_phases: u32,
    metadata_uri: String,
) -> (res: Result<ImpactCertificate, ImpactRefusal>)
    ensures
        already_exists ==> res == Err::<ImpactCertificate, ImpactRefusal>(ImpactRefusal::AlreadyExists),
        !already_exists && total_phases == 0 ==> res == Err::<ImpactCertificate, ImpactRefusal>(ImpactRefusal::NoPhases),
        !already_exists && total_phases > 0 ==> res == Ok::<ImpactCertificate, ImpactRefusal>(ImpactCertificate {
            id,
            grantee,
            planned_phases: total_phases,
            phases_completed: 0,
            impact_score: INITIAL_IMPACT_SCORE,
            metadata_uri,
        }),
        res matches Ok(c) ==> c.well_formed(),
{
    if already_exists {
        return Err(ImpactRefusal::AlreadyExists);
    }
    if total_phases == 0 {
        return Err(ImpactRefusal::NoPhases);
    }
    Ok(ImpactCertificate {
        id,
        grantee,
        planned_phases: total_phases,
        phases_completed: 0,
        impact_score: INITIAL_IMPACT_SCORE,
        metadata_uri,
    })
}

/// What a certificate shows.
pub fn certificate_metadata(cert: &ImpactCertificate) -> (m: ImpactCertificateMetadata)
    ensures
        m == metadata_of(cert.id, cert.grantee, cert.planned_phases, cert.phases_completed, cert.impact_score),
{
    let reached: u32 = if cert.phases_completed < cert.planned_phases {
        cert.phases_completed + 1
    } else {
        cert.planned_phases
    };
    ImpactCertificateMetadata {
        id: cert.id,
        grantee: cert.grantee,
        total_phases: reached,
        phases_completed: cert.phases_completed,
        impact_score: cert.impact_score,
        on_chain_badge: badge_for(cert.phases_completed, cert.planned_phases),
        milestone_status: status_for(cert.phases_completed, cert.planned_phases),
    }
}

/// Records that the project reached phase `new_phase` (phases completed)
/// and adds `impact` bps to its impact score, kept within 0..=10 000.
/// A phase beyond the planned ones is refused and changes nothing.
pub fn update_milestone_progress(
    cert: &mut ImpactCertificate,
    new_phase: u32,
    impact: i128,
) -> (res: Result<ImpactCertificateMetadata, ImpactRefusal>)
    requires
        old(cert).well_formed(),
    ensures
        final(cert).well_formed(),
        new_phase > old(cert).planned_phases ==> {
            &&& res == Err::<ImpactCertificateMetadata, ImpactRefusal>(ImpactRefusal::PhaseBeyondPlan)
            &&& *final(cert) == *old(cert)
        },
        new_phase <= old(cert).planned_phases ==> {
            &&& *final(cert) == ImpactCertificate {
                phases_completed: new_phase,
                impact_score: score_after(old(cert).impact_score, impact),
                ..*old(cert)
            }
            &&& res == Ok::<ImpactCertificateMetadata, ImpactRefusal>(metadata_of(
                old(cert).id,
                old(cert).grantee,
                old(cert).planned_phases,
                new_phase,
                score_after(old(cert).impact_score, impact),
            ))
        },
{
    if new_phase > cert.planned_phases {
        return Err(ImpactRefusal::PhaseBeyondPlan);
    }
    let score: i128 = cert.impact_score as i128;
    let limit: i128 = MAX_IMPACT_SCORE as i128;
    let raised: i128 = if impact >= limit {
        limit
    } else if impact <= -limit {
        0
    } else {
        score + impact
    };
    let new_score: u32 = if raised < 0 {
        0
    } else if raised < limit {
        raised as u32
    } else {
        MAX_IMPACT_SCORE
    };
    cert.phases_completed = new_phase;
    cert.impact_score = new_score;
    Ok(certificate_metadata(cert))
}

/// The completed share of `planned` phases, in percent, rounded down.
pub open spec fn percent_of(completed: u32, planned: u32) -> u32 {
    ((completed as int) * 100 / (planned as int)) as u32
}

/// What the progress bar of a certificate shows.
pub fn progress_bar_data(cert: &ImpactCertificate) -> (p: ProgressBar)
    requires
        cert.well_formed(),
    ensures
        p == (ProgressBar {
            progress_percent: percent_of(cert.phases_completed, cert.planned_phases),
            phases_completed: cert.phases_completed,
            planned_phases: cert.planned_phases,
            badge: badge_of(cert.phases_completed, cert.planned_phases),
            tier: tier_of(cert.impact_score),
            status: status_of(cert.phases_completed, cert.planned_phases),
        }),
        p.progress_percent <= 100,
{
    let completed: u64 = cert.phases_completed as u64;
    let planned: u64 = cert.planned_phases as u64;
    assert((completed as int) * 100 / (planned as int) <= 100) by (nonlinear_arith)
        requires completed <= planned, planned > 0;
    let percent: u64 = (completed * 100) / planned;
    ProgressBar {
        progress_percent: percent as u32,
        phases_completed: cert.phases_completed,
        planned_phases: cert.planned_phases,
        badge: badge_for(cert.phases_completed, cert.planned_phases),
        tier: tier_for(cert.impact_score),
        status: status_for(cert.phases_completed, cert.planned_phases),
    }
}

/// Rank of a badge, from `Newcomer` (0) to `ImpactMaster` (3).
pub open spec fn badge_rank(b: ImpactBadge) -> int {
    match b {
        ImpactBadge::Newcomer => 0,
        ImpactBadge::Contributor => 1,
        ImpactBadge::Achiever => 2,
        ImpactBadge::ImpactMaster => 3,
    }
}

/// Completing more phases never lowers the badge, and the master badge is
/// shown exactly when the project is completed.
pub proof fn lemma_badge_follows_progress(a: u32, b: u32, planned: u32)
    requires
        a <= b,
        planned > 0,
    ensures
        badge_rank(badge_of(a, planned)) <= badge_rank(badge_of(b, planned)),
        (badge_of(b, planned) == ImpactBadge::ImpactMaster) == (status_of(b, planned) == MilestoneProgress::Completed),
{
}

/// A positive impact never lowers the score, a negative one never raises it.
pub proof fn lemma_score_moves_with_impact(score: u32, impact: i128)
    requires
        score <= MAX_IMPACT_SCORE,
    ensures
        impact >= 0 ==> score_after(score, impact) >= score,
        impact <= 0 ==> score_after(score, impact) <= score,
        score_after(score, impact) <= MAX_IMPACT_SCORE,
{
}

} // verus!
