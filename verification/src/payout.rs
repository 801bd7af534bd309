//! Paying winners out of a resolved market, and refunding a cancelled one.
//!
//! Both operations draw on the same budget: what the pools hold less what
//! has been claimed already. No claim is ever paid beyond it.

use crate::errors::MarketError;
use crate::events::{PayoutClaimedEvent, RefundClaimedEvent};
use crate::keys::{is_same_key, same_key};
use crate::market::{BetSide, Market, MarketStatus, UserBet};
use anchor_lang::prelude::Pubkey;
use vstd::prelude::*;

verus! {

/// What a winner is handed: the computed share beside what was paid, for
/// reconciliation.
#[derive(Clone, Copy, Debug, PartialEq, Eq)]
pub struct Payout {
    /// The stake plus its share of the losing pool, before the cap.
    pub calculated_payout: u128,
    /// What the pools still held before this claim.
    pub remaining_pool: u64,
    /// The audit record; its amount is what the caller moves to the bettor.
    pub event: PayoutClaimedEvent,
}

/// What a stake in the winning pool earns before the cap: the stake itself
/// and its pro-rata share of the losing pool, rounded down.
pub open spec fn raw_payout(stake: nat, winning_pool: nat, losing_pool: nat) -> nat
    recommends
        winning_pool > 0,
{
    stake + stake * losing_pool / winning_pool
}

/// `amount`, but no more than `remaining`.
pub open spec fn capped(amount: nat, remaining: nat) -> nat {
    if amount <= remaining {
        amount
    } else {
        remaining
    }
}

/// Why a claim for a payout is turned down, if it is: the first check that
/// fails.
///
/// The market must be resolved, the position unclaimed, the claimant its
/// bettor and its side the winning one. Then the winning pool must not be
/// empty, both pools must fit one amount together, and no more may have been
/// claimed than they hold.
pub open spec fn payout_rejection(market: Market, bet: UserBet, claimant: Pubkey) -> Option<
    MarketError,
> {
    if market.status != MarketStatus::Resolved {
        Some(MarketError::MarketNotResolved)
    } else if bet.claimed {
        Some(MarketError::AlreadyClaimed)
    } else if !is_same_key(bet.bettor, claimant) {
        Some(MarketError::Unauthorized)
    } else if market.resolved_outcome != Some(bet.bet_side) {
        Some(MarketError::BetLost)
    } else if market.pool_of(bet.bet_side) == 0 {
        Some(MarketError::NoWinnersCannotClaim)
    } else if market.yes_pool + market.no_pool > u64::MAX {
        Some(MarketError::PoolOverflow)
    } else if market.total_claimed > market.yes_pool + market.no_pool {
        Some(MarketError::TotalClaimedOverflow)
    } else {
        None
    }
}

/// What a winning position earns before the cap.
pub open spec fn calculated_payout(market: Market, bet: UserBet) -> nat {
    raw_payout(
        bet.amount_to_pool as nat,
        market.pool_of(bet.bet_side) as nat,
        market.pool_of(bet.bet_side.opposite()) as nat,
    )
}

/// What a winning position is paid: its computed payout, capped by what the
/// pools still hold.
pub open spec fn payout_amount(market: Market, bet: UserBet) -> nat {
    capped(calculated_payout(market, bet), market.remaining() as nat)
}

/// The market once `paid` more has been claimed from it.
pub open spec fn market_after_claim(market: Market, paid: nat) -> Market {
    Market { total_claimed: (market.total_claimed + paid) as u64, ..market }
}

/// The position once claimed.
pub open spec fn claimed_bet(bet: UserBet) -> UserBet {
    UserBet { claimed: true, ..bet }
}

/// The widened payout arithmetic stays within 128 bits.
pub proof fn lemma_payout_fits(stake: u64, winning_pool: u64, losing_pool: u64)
    requires
        winning_pool > 0,
    ensures
        stake * losing_pool <= u128::MAX,
        raw_payout(stake as nat, winning_pool as nat, losing_pool as nat) <= u128::MAX,
{
    let product = stake as nat * losing_pool as nat;
    assert(product <= 0xffff_ffff_ffff_ffff * 0xffff_ffff_ffff_ffff) by (nonlinear_arith)
        requires
            product == stake as nat * losing_pool as nat,
            stake <= 0xffff_ffff_ffff_ffff,
            losing_pool <= 0xffff_ffff_ffff_ffff,
    ;
    assert(product / winning_pool as nat <= product) by (nonlinear_arith)
        requires
            winning_pool > 0,
            product >= 0,
    ;
}

/// Pays a winning position its share of a resolved market.
///
/// The position earns its stake plus its pro-rata share of the losing pool,
/// but never more than the pools still hold. The claim is entered in the
/// market's claimed total and the position is marked before anything is
/// returned; the caller then moves the event's amount to the bettor. A
/// rejected claim leaves market and position untouched.
pub fn claim_payout(market: &mut Market, user_bet: &mut UserBet, bettor: Pubkey, now: i64) -> (paid:
    Result<Payout, MarketError>)
    ensures
        match payout_rejection(*old(market), *old(user_bet), bettor) {
            Some(error) => {
                &&& paid == Err::<Payout, MarketError>(error)
                &&& *final(market) == *old(market)
                &&& *final(user_bet) == *old(user_bet)
            },
            None => {
                let amount = payout_amount(*old(market), *old(user_bet));
                &&& paid == Ok::<Payout, MarketError>(
                    (Payout {
                        calculated_payout: calculated_payout(*old(market), *old(user_bet)) as u128,
                        remaining_pool: old(market).remaining() as u64,
                        event: PayoutClaimedEvent {
                            market_id: old(market).market_id,
                            bettor,
                            amount: amount as u64,
                            timestamp: now,
                        },
                    }),
                )
                &&& *final(market) == market_after_claim(*old(market), amount)
                &&& *final(user_bet) == claimed_bet(*old(user_bet))
                &&& amount <= old(market).remaining()
                &&& final(market).total_claimed == old(market).total_claimed + amount
            },
        },
        old(market).ledger_balanced() ==> final(market).ledger_balanced(),
        old(market).well_formed() ==> final(market).well_formed(),
{
    if market.status != MarketStatus::Resolved {
        return Err(MarketError::MarketNotResolved);
    }
    if user_bet.claimed {
        return Err(MarketError::AlreadyClaimed);
    }
    if !same_key(&user_bet.bettor, &bettor) {
        return Err(MarketError::Unauthorized);
    }
    let (winning_pool, losing_pool) = match (user_bet.bet_side, market.resolved_outcome) {
        (BetSide::Yes, Some(BetSide::Yes)) => (market.yes_pool, market.no_pool),
        (BetSide::No, Some(BetSide::No)) => (market.no_pool, market.yes_pool),
        _ => {
            return Err(MarketError::BetLost);
        },
    };
    if winning_pool == 0 {
        return Err(MarketError::NoWinnersCannotClaim);
    }
    let total_pool = match winning_pool.checked_add(losing_pool) {
        Some(sum) => sum,
        None => {
            return Err(MarketError::PoolOverflow);
        },
    };
    let remaining_pool = match total_pool.checked_sub(market.total_claimed) {
        Some(rest) => rest,
        None => {
            return Err(MarketError::TotalClaimedOverflow);
        },
    };
    proof {
        lemma_payout_fits(user_bet.amount_to_pool, winning_pool, losing_pool);
    }
    let stake: u128 = user_bet.amount_to_pool as u128;
    let share_of_winnings: u128 = stake * (losing_pool as u128) / (winning_pool as u128);
    let calculated: u128 = stake + share_of_winnings;
    let actual_payout: u64 = if calculated <= remaining_pool as u128 {
        calculated as u64
    } else {
        remaining_pool
    };
    market.total_claimed = market.total_claimed + actual_payout;
    user_bet.claimed = true;
    Ok(
        Payout {
            calculated_payout: calculated,
            remaining_pool,
            event: PayoutClaimedEvent {
                market_id: market.market_id,
                bettor,
                amount: actual_payout,
                timestamp: now,
            },
        },
    )
}

/// Why a claim for a refund is turned down, if it is: the first check that
/// fails.
pub open spec fn refund_rejection(market: Market, bet: UserBet, claimant: Pubkey) -> Option<
    MarketError,
> {
    if market.status != MarketStatus::Cancelled {
        Some(MarketError::MarketNotCancelled)
    } else if bet.claimed {
        Some(MarketError::AlreadyClaimed)
    } else if !is_same_key(bet.bettor, claimant) {
        Some(MarketError::Unauthorized)
    } else if market.yes_pool + market.no_pool > u64::MAX {
        Some(MarketError::PoolOverflow)
    } else if market.total_claimed > market.yes_pool + market.no_pool {
        Some(MarketError::TotalClaimedOverflow)
    } else {
        None
    }
}

/// What a position of a cancelled market is refunded: all that the bettor
/// paid, fees included, capped by what the pools still hold.
pub open spec fn refund_amount(market: Market, bet: UserBet) -> nat {
    capped(bet.amount as nat, market.remaining() as nat)
}

/// Refunds a position of a cancelled market.
///
/// The bettor gets back the whole wager, fees included, but never more than
/// the pools still hold. The refund is entered in the market's claimed total
/// and the position is marked before anything is returned; the caller then
/// moves the event's amount to the bettor. A rejected claim leaves market and
/// position untouched.
pub fn claim_refund(market: &mut Market, user_bet: &mut UserBet, bettor: Pubkey, now: i64) -> (refunded:
    Result<RefundClaimedEvent, MarketError>)
    ensures
        match refund_rejection(*old(market), *old(user_bet), bettor) {
            Some(error) => {
                &&& refunded == Err::<RefundClaimedEvent, MarketError>(error)
                &&& *final(market) == *old(market)
                &&& *final(user_bet) == *old(user_bet)
            },
            None => {
                let amount = refund_amount(*old(market), *old(user_bet));
                &&& refunded == Ok::<RefundClaimedEvent, MarketError>(
                    (RefundClaimedEvent {
                        market_id: old(market).market_id,
                        bettor,
                        amount: amount as u64,
                        timestamp: now,
                    }),
                )
                &&& *final(market) == market_after_claim(*old(market), amount)
                &&& *final(user_bet) == claimed_bet(*old(user_bet))
                &&& amount <= old(market).remaining()
                &&& final(market).total_claimed == old(market).total_claimed + amount
            },
        },
        old(market).ledger_balanced() ==> final(market).ledger_balanced(),
        old(market).well_formed() ==> final(market).well_formed(),
{
    if market.status != MarketStatus::Cancelled {
        return Err(MarketError::MarketNotCancelled);
    }
    if user_bet.claimed {
        return Err(MarketError::AlreadyClaimed);
    }
    if !same_key(&user_bet.bettor, &bettor) {
        return Err(MarketError::Unauthorized);
    }
    let total_pool = match market.yes_pool.checked_add(market.no_pool) {
        Some(sum) => sum,
        None => {
            return Err(MarketError::PoolOverflow);
        },
    };
    let remaining_pool = match total_pool.checked_sub(market.total_claimed) {
        Some(rest) => rest,
        None => {
            return Err(MarketError::TotalClaimedOverflow);
        },
    };
    let refund: u64 = if user_bet.amount <= remaining_pool {
        user_bet.amount
    } else {
        remaining_pool
    };
    market.total_claimed = market.total_claimed + refund;
    user_bet.claimed = true;
    Ok(RefundClaimedEvent { market_id: market.market_id, bettor, amount: refund, timestamp: now })
}

} // verus!
