//! Payout schemes: several winners per round sharing the pot, and a pot paid
//! partly at once and partly in later tranches.
use vstd::prelude::*;

use crate::account::Account;
use crate::circle::{CircleInfo, CircleView, pot_of};
use crate::rejection::Rejection;
use crate::reputation::div_toward_zero;

verus! {

/// Record of one batch payout.
#[derive(Debug)]
pub struct BatchPayoutRecord {
    pub batch_payout_id: u64,
    pub circle_id: u64,
    pub round_number: u32,
    pub total_winners: u32,
    pub total_pot: i128,
    pub organizer_fee: i128,
    pub net_payout_per_winner: i128,
    pub dust_amount: i128,
    pub winners: Vec<Account>,
    pub payout_timestamp: u64,
}

/// One winner's share of a batch payout.
#[derive(Clone, Copy, Debug, PartialEq, Eq, Structural)]
pub struct IndividualPayoutClaim {
    pub recipient: Account,
    pub circle_id: u64,
    pub round_number: u32,
    pub amount_claimed: i128,
    pub batch_payout_id: u64,
    pub claim_timestamp: u64,
}

/// Identifier given to batch payouts.
pub const BATCH_PAYOUT_ID: u64 = 1;

/// What a batch payout stores and pays.
#[derive(Debug)]
pub struct BatchPayout {
    pub record: BatchPayoutRecord,
    pub claims: Vec<IndividualPayoutClaim>,
}

/// Remainder of integer division rounding toward zero.
pub open spec fn rem_toward_zero(a: int, b: int) -> int {
    if a >= 0 { a % b } else { -((-a) % b) }
}

/// How many members win this round: as many as configured, as far as the
/// circle has members.
pub open spec fn winner_count(c: CircleView) -> int {
    if (c.winners_per_round as int) < c.members.len() { c.winners_per_round as int } else { c.members.len() as int }
}

/// Splits the pot among the round's winners: the first
/// `winners_per_round` members (as far as there are members).
///
/// `None` when no winners are configured. Otherwise the caller pays each
/// winner `net_payout_per_winner` and stores the record and the claims.
pub fn distribute_batch_payout(circle: &CircleInfo, now: u64) -> (res: Option<BatchPayout>)
    requires
        circle.winners_per_round > 0 ==> i128::MIN <= pot_of(circle@) <= i128::MAX,
    ensures
        circle.winners_per_round == 0 <==> res is None,
        res matches Some(p) ==> {
            let pot = pot_of(circle@);
            let share = div_toward_zero(pot, circle.winners_per_round as int);
            &&& p.record.batch_payout_id == BATCH_PAYOUT_ID
            &&& p.record.circle_id == circle.id
            &&& p.record.round_number == circle.round_number
            &&& p.record.total_winners == circle.winners_per_round
            &&& p.record.total_pot == pot
            &&& p.record.organizer_fee == 0
            &&& p.record.net_payout_per_winner == share
            &&& p.record.dust_amount == rem_toward_zero(pot, circle.winners_per_round as int)
            &&& p.record.winners@ == circle@.members.take(winner_count(circle@))
            &&& p.record.payout_timestamp == now
            &&& p.claims@.len() == p.record.winners@.len()
            &&& forall|i: int| 0 <= i < p.claims@.len() ==> #[trigger] p.claims@[i] == (IndividualPayoutClaim {
                recipient: p.record.winners@[i],
                circle_id: circle.id,
                round_number: circle.round_number,
                amount_claimed: share as i128,
                batch_payout_id: BATCH_PAYOUT_ID,
                claim_timestamp: now,
            })
        },
{
    if circle.winners_per_round == 0 {
        return None;
    }
    let total_pot = circle.contribution_amount * (circle.member_count as i128);
    let winners_count = circle.winners_per_round as i128;
    let amount_per_winner = total_pot / winners_count;
    let dust_amount = total_pot % winners_count;
    let mut winners: Vec<Account> = Vec::new();
    let mut claims: Vec<IndividualPayoutClaim> = Vec::new();
    let mut i: u32 = 0;
    while i < circle.winners_per_round
        invariant
            i <= circle.winners_per_round,
            winners@ == circle@.members.take(if (i as int) < circle@.members.len() { i as int } else { circle@.members.len() as int }),
            claims@.len() == winners@.len(),
            forall|j: int| 0 <= j < claims@.len() ==> #[trigger] claims@[j] == (IndividualPayoutClaim {
                recipient: winners@[j],
                circle_id: circle.id,
                round_number: circle.round_number,
                amount_claimed: amount_per_winner,
                batch_payout_id: BATCH_PAYOUT_ID,
                claim_timestamp: now,
            }),
        decreases circle.winners_per_round - i,
    {
        if (i as usize) < circle.member_addresses.len() {
            let w = circle.member_addresses[i as usize];
            winners.push(w);
            claims.push(IndividualPayoutClaim {
                recipient: w,
                circle_id: circle.id,
                round_number: circle.round_number,
                amount_claimed: amount_per_winner,
                batch_payout_id: BATCH_PAYOUT_ID,
                claim_timestamp: now,
            });
            assert(winners@ =~= circle@.members.take(i + 1));
        }
        i = i + 1;
    }
    let record = BatchPayoutRecord {
        batch_payout_id: BATCH_PAYOUT_ID,
        circle_id: circle.id,
        round_number: circle.round_number,
        total_winners: circle.winners_per_round,
        total_pot,
        organizer_fee: 0,
        net_payout_per_winner: amount_per_winner,
        dust_amount,
        winners,
        payout_timestamp: now,
    };
    Some(BatchPayout { record, claims })
}

/// The shares and the dust add back up to the pot.
pub proof fn lemma_batch_split_exact(pot: int, winners: int)
    requires
        winners > 0,
    ensures
        div_toward_zero(pot, winners) * winners + rem_toward_zero(pot, winners) == pot,
{
    if pot >= 0 {
        assert((pot / winners) * winners + pot % winners == pot) by (nonlinear_arith)
            requires winners > 0;
    } else {
        let n = -pot;
        assert((n / winners) * winners + n % winners == n) by (nonlinear_arith)
            requires winners > 0;
        assert((-(n / winners)) * winners == -((n / winners) * winners)) by (nonlinear_arith);
    }
}

/// Share of the pot paid at once when a payout is split into tranches, in
/// basis points.
pub const IMMEDIATE_PAYOUT_BPS: i128 = 7000;

#[derive(Clone, Copy, Debug, PartialEq, Eq, Structural)]
pub enum TrancheStatus {
    Pending,
    Claimed,
    ClawedBack,
}

/// A deferred part of a payout, unlocked at a later round.
#[derive(Clone, Copy, Debug, PartialEq, Eq, Structural)]
pub struct Tranche {
    pub amount: i128,
    pub unlock_round: u32,
    pub status: TrancheStatus,
}

/// How a winner's pot is paid out over time.
#[derive(Debug)]
pub struct TrancheSchedule {
    pub circle_id: u64,
    pub winner: Account,
    pub total_pot: i128,
    pub immediate_payout: i128,
    pub tranches: Vec<Tranche>,
}

/// The part of a pot paid at once.
pub open spec fn immediate_of(pot: int) -> int {
    div_toward_zero(pot * (IMMEDIATE_PAYOUT_BPS as int), 10_000)
}

/// Pays this round's recipient (the member at `current_recipient_index`)
/// part of the pot at once and schedules a deferred tranche.
///
/// The caller pays `schedule.immediate_payout` to `schedule.winner` and
/// stores the schedule.
pub fn distribute_payout(circle: &CircleInfo) -> (schedule: TrancheSchedule)
    requires
        circle.current_recipient_index < circle@.members.len(),
        i128::MIN <= pot_of(circle@) * (IMMEDIATE_PAYOUT_BPS as int) <= i128::MAX,
        circle.round_number + 2 <= u32::MAX,
    ensures
        schedule.circle_id == circle.id,
        schedule.winner == circle@.members[circle.current_recipient_index as int],
        schedule.total_pot == pot_of(circle@),
        schedule.immediate_payout == immediate_of(pot_of(circle@)),
        schedule.tranches@ == seq![Tranche {
            amount: div_toward_zero(pot_of(circle@) - immediate_of(pot_of(circle@)), 2) as i128,
            unlock_round: (circle.round_number + 2) as u32,
            status: TrancheStatus::Pending,
        }],
{
    proof {
        assert(i128::MIN <= pot_of(circle@) <= i128::MAX) by (nonlinear_arith)
            requires i128::MIN <= pot_of(circle@) * 7000 <= i128::MAX;
    }
    let total_pot = circle.contribution_amount * (circle.member_count as i128);
    let immediate_payout = (total_pot * IMMEDIATE_PAYOUT_BPS) / 10_000;
    let tranche_total = total_pot - immediate_payout;
    let recipient = circle.member_addresses[circle.current_recipient_index as usize];
    let mut tranches: Vec<Tranche> = Vec::new();
    tranches.push(Tranche { amount: tranche_total / 2, unlock_round: circle.round_number + 2, status: TrancheStatus::Pending });
    TrancheSchedule { circle_id: circle.id, winner: recipient, total_pot, immediate_payout, tranches }
}

/// The part paid at once never exceeds a non-negative pot.
pub proof fn lemma_immediate_within_pot(pot: int)
    requires
        pot >= 0,
    ensures
        0 <= immediate_of(pot) <= pot,
{
    assert(pot * 7000 / 10_000 <= pot) by (nonlinear_arith)
        requires pot >= 0;
    assert(pot * 7000 >= 0) by (nonlinear_arith)
        requires pot >= 0;
}

/// The winner claims the first tranche of their schedule.
pub fn claim_tranche(schedule: &mut TrancheSchedule)
    requires
        old(schedule).tranches@.len() > 0,
    ensures
        final(schedule).tranches@ == old(schedule).tranches@.update(0, Tranche {
            status: TrancheStatus::Claimed,
            ..old(schedule).tranches@[0]
        }),
        final(schedule).circle_id == old(schedule).circle_id,
        final(schedule).winner == old(schedule).winner,
        final(schedule).total_pot == old(schedule).total_pot,
        final(schedule).immediate_payout == old(schedule).immediate_payout,
{
    let tr = Tranche { status: TrancheStatus::Claimed, ..schedule.tranches[0] };
    schedule.tranches.set(0, tr);
}

/// The admin claws back the first tranche of a member's schedule.
pub fn execute_tranche_clawback(schedule: &mut TrancheSchedule)
    requires
        old(schedule).tranches@.len() > 0,
    ensures
        final(schedule).tranches@ == old(schedule).tranches@.update(0, Tranche {
            status: TrancheStatus::ClawedBack,
            ..old(schedule).tranches@[0]
        }),
        final(schedule).circle_id == old(schedule).circle_id,
        final(schedule).winner == old(schedule).winner,
        final(schedule).total_pot == old(schedule).total_pot,
        final(schedule).immediate_payout == old(schedule).immediate_payout,
{
    let tr = Tranche { status: TrancheStatus::ClawedBack, ..schedule.tranches[0] };
    schedule.tranches.set(0, tr);
}

/// Decides a payout frozen for review (`frozen`: the stored amount and
/// winner, if any).
///
/// The result is the payment to make (winner, amount), if any, and whether
/// the frozen entry is removed: a stored entry is removed whether it is
/// released or not, and paid only when released to a known winner.
pub fn review_frozen_payout(frozen: Option<(i128, Option<Account>)>, release: bool) -> (res: (Option<(Account, i128)>, bool))
    ensures
        res == (match frozen {
            None => (None, false),
            Some((amount, winner)) => (
                if release && winner is Some { Some((winner.unwrap(), amount)) } else { None },
                true,
            ),
        }),
{
    match frozen {
        None => (None, false),
        Some((amount, winner)) => {
            let payment = if release {
                match winner {
                    Some(w) => Some((w, amount)),
                    None => None,
                }
            } else {
                None
            };
            (payment, true)
        },
    }
}

/// Configuration of a circle's automatic swaps.
#[derive(Clone, Copy, Debug, PartialEq, Eq, Structural)]
pub struct DexSwapConfig {
    pub swap_threshold_xlm: i128,
    pub total_swapped_xlm: i128,
    pub last_swap_timestamp: u64,
}

/// Outcome of one swap.
#[derive(Clone, Copy, Debug, PartialEq, Eq, Structural)]
pub struct DexSwapRecord {
    pub success: bool,
    pub usdc_amount: i128,
    pub xlm_received: i128,
}

/// Amount of USDC a swap is recorded to spend.
pub const SWAP_USDC_AMOUNT: i128 = 100_000_000;

/// Runs a swap of the configured threshold: the configuration (updated in
/// place) counts it, and the result is the record of the swap.
pub fn trigger_dex_swap(cfg: &mut DexSwapConfig, now: u64) -> (record: DexSwapRecord)
    requires
        i128::MIN <= old(cfg).total_swapped_xlm + old(cfg).swap_threshold_xlm <= i128::MAX,
    ensures
        *final(cfg) == (DexSwapConfig {
            total_swapped_xlm: (old(cfg).total_swapped_xlm + old(cfg).swap_threshold_xlm) as i128,
            last_swap_timestamp: now,
            ..*old(cfg)
        }),
        record == (DexSwapRecord { success: true, usdc_amount: SWAP_USDC_AMOUNT, xlm_received: old(cfg).swap_threshold_xlm }),
{
    cfg.total_swapped_xlm = cfg.total_swapped_xlm + cfg.swap_threshold_xlm;
    cfg.last_swap_timestamp = now;
    DexSwapRecord { success: true, usdc_amount: SWAP_USDC_AMOUNT, xlm_received: cfg.swap_threshold_xlm }
}

/// How a screened pot claim is settled.
#[derive(Clone, Copy, Debug, PartialEq, Eq, Structural)]
pub enum PotScreening {
    /// The claimant is sanctioned: the pot is frozen for review, to be stored
    /// for the circle.
    Frozen { amount: i128, winner: Account },
    /// The pot is paid to `recipient`, whose saved volume grows by `amount`.
    Payout { recipient: Account, amount: i128 },
}

/// Screens a pot claim before paying it.
///
/// `sanctioned` is the sanctions oracle's answer for the claimant (`None`:
/// no oracle set), `leaseflow_defaulted` whether a lease default locks the
/// claimant's payouts, and `authorized_recipient` the address the claimant
/// authorised to receive them. A sanctioned claimant's pot is frozen; a
/// locked claim is refused; otherwise the pot goes to the authorised
/// recipient, or to the claimant, and the circle closes.
pub fn screen_pot_claim(
    circle: &mut CircleInfo,
    user: Account,
    sanctioned: Option<bool>,
    leaseflow_defaulted: bool,
    authorized_recipient: Option<Account>,
) -> (res: Result<PotScreening, Rejection>)
    requires
        i128::MIN <= pot_of(old(circle)@) <= i128::MAX,
    ensures
        sanctioned == Some(true) ==> res == Ok::<PotScreening, Rejection>(
            PotScreening::Frozen { amount: pot_of(old(circle)@) as i128, winner: user },
        ) && final(circle)@ == old(circle)@,
        sanctioned != Some(true) && leaseflow_defaulted ==> res == Err::<PotScreening, Rejection>(Rejection::LockedByDefault)
            && final(circle)@ == old(circle)@,
        sanctioned != Some(true) && !leaseflow_defaulted ==> res == Ok::<PotScreening, Rejection>(
            PotScreening::Payout {
                recipient: match authorized_recipient { Some(r) => r, None => user },
                amount: pot_of(old(circle)@) as i128,
            },
        ) && final(circle)@ == (CircleView { is_active: false, ..old(circle)@ }),
{
    let pot = circle.contribution_amount * (circle.member_count as i128);
    if let Some(s) = sanctioned {
        if s {
            return Ok(PotScreening::Frozen { amount: pot, winner: user });
        }
    }
    if leaseflow_defaulted {
        return Err(Rejection::LockedByDefault);
    }
    let recipient = match authorized_recipient {
        Some(r) => r,
        None => user,
    };
    circle.is_active = false;
    Ok(PotScreening::Payout { recipient, amount: pot })
}

} // verus!
