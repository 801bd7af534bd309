//! The two ways a market ends: resolved with an outcome, or cancelled.

use crate::errors::MarketError;
use crate::events::{MarketCancelledEvent, MarketResolvedEvent};
use crate::keys::{is_same_key, same_key};
use crate::market::{BetSide, Market, MarketStatus};
use crate::parameters::GlobalParameters;
use anchor_lang::prelude::Pubkey;
use vstd::prelude::*;

verus! {

/// What a resolution asks of the caller: the audit record to publish and the
/// fees to move out of the market's balance.
#[derive(Clone, Copy, Debug, PartialEq, Eq)]
pub struct Resolution {
    pub event: MarketResolvedEvent,
    /// The platform fees to move to the platform wallet; `None` when there are none.
    pub platform_payment: Option<u64>,
    /// The creator fees to move to the creator wallet; `None` when there are none.
    pub creator_payment: Option<u64>,
}

/// A payment of `amount`, or none at all where the amount is zero: nothing is
/// ever moved for an empty fee counter.
pub open spec fn fee_payment(amount: u64) -> Option<u64> {
    if amount > 0 {
        Some(amount)
    } else {
        None
    }
}

/// Why a resolution is turned down, if it is: the first check that fails.
///
/// The caller and the creator wallet must both be the market's creator and
/// the platform wallet the configured authority; then the market must be
/// active and its end date reached.
pub open spec fn resolution_rejection(
    market: Market,
    params: GlobalParameters,
    authority: Pubkey,
    platform_wallet: Pubkey,
    creator_wallet: Pubkey,
    now: i64,
) -> Option<MarketError> {
    if !is_same_key(creator_wallet, market.creator) || !is_same_key(authority, market.creator)
        || !is_same_key(platform_wallet, params.authority) {
        Some(MarketError::Unauthorized)
    } else if market.status != MarketStatus::Active {
        Some(MarketError::MarketAlreadyResolved)
    } else if now < market.end_date {
        Some(MarketError::MarketNotEnded)
    } else {
        None
    }
}

/// The market once resolved with `outcome`. The ledger is left as it was.
pub open spec fn market_after_resolution(market: Market, outcome: BetSide) -> Market {
    Market { status: MarketStatus::Resolved, resolved_outcome: Some(outcome), ..market }
}

/// What a resolution at `now` hands back for a market already marked resolved.
pub open spec fn resolution_of(after: Market, outcome: BetSide, now: i64) -> Resolution {
    Resolution {
        event: MarketResolvedEvent {
            market_id: after.market_id,
            outcome,
            yes_pool: after.yes_pool,
            no_pool: after.no_pool,
            timestamp: now,
        },
        platform_payment: fee_payment(after.total_platform_fees),
        creator_payment: fee_payment(after.total_creator_fees),
    }
}

/// Resolves a market with `outcome` and says which fees are to be paid out.
///
/// Only the creator may resolve, and only once the end date is reached. The
/// pools and the claimed total stay as they are; the fee counters are handed
/// to the caller as up to two payments.
pub fn resolve_market(
    market: &mut Market,
    params: &GlobalParameters,
    authority: Pubkey,
    platform_wallet: Pubkey,
    creator_wallet: Pubkey,
    outcome: BetSide,
    now: i64,
) -> (resolved: Result<Resolution, MarketError>)
    ensures
        match resolution_rejection(
            *old(market),
            *params,
            authority,
            platform_wallet,
            creator_wallet,
            now,
        ) {
            Some(error) => {
                &&& resolved == Err::<Resolution, MarketError>(error)
                &&& *final(market) == *old(market)
            },
            None => {
                let after = market_after_resolution(*old(market), outcome);
                &&& resolved == Ok::<Resolution, MarketError>(resolution_of(after, outcome, now))
                &&& *final(market) == after
            },
        },
        old(market).ledger_balanced() ==> final(market).ledger_balanced(),
        old(market).well_formed() ==> final(market).well_formed(),
{
    if !same_key(&creator_wallet, &market.creator) || !same_key(&authority, &market.creator)
        || !same_key(&platform_wallet, &params.authority) {
        return Err(MarketError::Unauthorized);
    }
    if market.status != MarketStatus::Active {
        return Err(MarketError::MarketAlreadyResolved);
    }
    if now < market.end_date {
        return Err(MarketError::MarketNotEnded);
    }
    market.status = MarketStatus::Resolved;
    market.resolved_outcome = Some(outcome);
    let platform_payment = if market.total_platform_fees > 0 {
        Some(market.total_platform_fees)
    } else {
        None
    };
    let creator_payment = if market.total_creator_fees > 0 {
        Some(market.total_creator_fees)
    } else {
        None
    };
    Ok(
        Resolution {
            event: MarketResolvedEvent {
                market_id: market.market_id,
                outcome,
                yes_pool: market.yes_pool,
                no_pool: market.no_pool,
                timestamp: now,
            },
            platform_payment,
            creator_payment,
        },
    )
}

/// Why a cancellation is turned down, if it is: the first check that fails.
pub open spec fn cancellation_rejection(
    market: Market,
    params: GlobalParameters,
    authority: Pubkey,
    now: i64,
) -> Option<MarketError> {
    if !is_same_key(authority, params.authority) {
        Some(MarketError::Unauthorized)
    } else if market.status != MarketStatus::Active {
        Some(MarketError::CannotCancelResolvedMarket)
    } else if now < market.end_date {
        Some(MarketError::CannotCancelBeforeEndDate)
    } else {
        None
    }
}

/// The market once cancelled. The ledger is left as it was.
pub open spec fn market_after_cancellation(market: Market) -> Market {
    Market { status: MarketStatus::Cancelled, ..market }
}

/// The audit record of a cancellation at `now`.
pub open spec fn cancellation_event(market: Market, now: i64) -> MarketCancelledEvent {
    MarketCancelledEvent {
        market_id: market.market_id,
        yes_pool: market.yes_pool,
        no_pool: market.no_pool,
        total_bets: market.total_bets,
        timestamp: now,
    }
}

/// Cancels a market whose end date has passed. Nothing is moved: every
/// bettor claims a refund afterwards.
///
/// Only the platform authority may cancel, and only an active market.
pub fn cancel_market(
    market: &mut Market,
    params: &GlobalParameters,
    authority: Pubkey,
    now: i64,
) -> (cancelled: Result<MarketCancelledEvent, MarketError>)
    ensures
        match cancellation_rejection(*old(market), *params, authority, now) {
            Some(error) => {
                &&& cancelled == Err::<MarketCancelledEvent, MarketError>(error)
                &&& *final(market) == *old(market)
            },
            None => {
                &&& cancelled == Ok::<MarketCancelledEvent, MarketError>(
                    cancellation_event(*old(market), now),
                )
                &&& *final(market) == market_after_cancellation(*old(market))
            },
        },
        old(market).ledger_balanced() ==> final(market).ledger_balanced(),
        old(market).well_formed() ==> final(market).well_formed(),
{
    if !same_key(&authority, &params.authority) {
        return Err(MarketError::Unauthorized);
    }
    if market.status != MarketStatus::Active {
        return Err(MarketError::CannotCancelResolvedMarket);
    }
    if now < market.end_date {
        return Err(MarketError::CannotCancelBeforeEndDate);
    }
    let event = MarketCancelledEvent {
        market_id: market.market_id,
        yes_pool: market.yes_pool,
        no_pool: market.no_pool,
        total_bets: market.total_bets,
        timestamp: now,
    };
    market.status = MarketStatus::Cancelled;
    Ok(event)
}

} // verus!
