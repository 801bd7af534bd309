//! Opening a market and taking wagers.

use crate::calculator::{calculate_fees, calculate_odds, fees_fit, odds_of, split_of, FeeSplit};
use crate::errors::MarketError;
use crate::events::{BetPlacedEvent, MarketCreatedEvent};
use crate::market::{BetSide, Market, MarketStatus, UserBet};
use crate::parameters::GlobalParameters;
use crate::text::{text_fits, text_in_bounds, MAX_DESCRIPTION_LEN, MAX_TITLE_LEN};
use anchor_lang::prelude::Pubkey;
use vstd::prelude::*;

verus! {

/// Why a new market is turned down, if it is: the first check that fails.
pub open spec fn creation_rejection(
    title: Seq<char>,
    description: Seq<char>,
    end_date: i64,
    now: i64,
) -> Option<MarketError> {
    if !text_fits(title, MAX_TITLE_LEN as nat) {
        Some(MarketError::InvalidTitle)
    } else if !text_fits(description, MAX_DESCRIPTION_LEN as nat) {
        Some(MarketError::InvalidDescription)
    } else if end_date <= now {
        Some(MarketError::InvalidEndDate)
    } else {
        None
    }
}

/// Opens a market: active, with empty pools and nothing claimed.
///
/// The title must hold 1 to 128 bytes, the description 1 to 512, and the end
/// date must lie after `now`.
pub fn create_market(
    market_id: u64,
    creator: Pubkey,
    title: String,
    description: String,
    end_date: i64,
    now: i64,
    bump: u8,
) -> (created: Result<(Market, MarketCreatedEvent), MarketError>)
    ensures
        match creation_rejection(title@, description@, end_date, now) {
            Some(error) => created == Err::<(Market, MarketCreatedEvent), MarketError>(error),
            None => created matches Ok((market, event)) && {
                &&& market.market_id == market_id
                &&& market.creator == creator
                &&& market.title@ == title@
                &&& market.description@ == description@
                &&& market.end_date == end_date
                &&& market.yes_pool == 0
                &&& market.no_pool == 0
                &&& market.total_volume == 0
                &&& market.total_platform_fees == 0
                &&& market.total_creator_fees == 0
                &&& market.total_claimed == 0
                &&& market.status == MarketStatus::Active
                &&& market.resolved_outcome is None
                &&& market.created_at == now
                &&& market.total_bets == 0
                &&& market.unique_bettors == 0
                &&& market.bump == bump
                &&& market.well_formed()
                &&& event.market_id == market_id
                &&& event.creator == creator
                &&& event.title@ == title@
                &&& event.end_date == end_date
                &&& event.timestamp == now
            },
        },
{
    if !text_in_bounds(title.as_str(), MAX_TITLE_LEN) {
        return Err(MarketError::InvalidTitle);
    }
    if !text_in_bounds(description.as_str(), MAX_DESCRIPTION_LEN) {
        return Err(MarketError::InvalidDescription);
    }
    if end_date <= now {
        return Err(MarketError::InvalidEndDate);
    }
    let event = MarketCreatedEvent {
        market_id,
        creator,
        title: title.clone(),
        end_date,
        timestamp: now,
    };
    let market = Market {
        market_id,
        creator,
        title,
        description,
        end_date,
        yes_pool: 0,
        no_pool: 0,
        total_volume: 0,
        total_platform_fees: 0,
        total_creator_fees: 0,
        total_claimed: 0,
        status: MarketStatus::Active,
        resolved_outcome: None,
        created_at: now,
        total_bets: 0,
        unique_bettors: 0,
        bump,
    };
    Ok((market, event))
}

/// Why a wager is turned down before anything is moved, if it is: the first
/// check that fails.
///
/// The market must be active and not yet ended, and the amount within the
/// configured bounds and not zero.
pub open spec fn wager_rejection(
    market: Market,
    params: GlobalParameters,
    amount: u64,
    now: i64,
) -> Option<MarketError> {
    if market.status != MarketStatus::Active {
        Some(MarketError::MarketNotActive)
    } else if now >= market.end_date {
        Some(MarketError::MarketEnded)
    } else if amount < params.min_bet_lamports {
        Some(MarketError::BetTooSmall)
    } else if amount > params.max_bet_lamports {
        Some(MarketError::BetTooLarge)
    } else if amount == 0 {
        Some(MarketError::InvalidAmount)
    } else {
        None
    }
}

/// Why the ledger cannot take a wager, if it cannot: the first accumulator
/// without room for it, in the order pool, volume, wager counter, fee
/// counters.
pub open spec fn ledger_rejection(
    market: Market,
    params: GlobalParameters,
    bet_side: BetSide,
    amount: u64,
) -> Option<MarketError> {
    let split = split_of(amount, params.platform_fee_bps, params.creator_fee_bps);
    if market.pool_of(bet_side) + split.pool_amount > u64::MAX {
        Some(MarketError::PoolOverflow)
    } else if market.total_volume + amount > u64::MAX {
        Some(MarketError::TotalVolumeOverflow)
    } else if market.total_bets + 1 > u64::MAX {
        Some(MarketError::TotalBetsOverflow)
    } else if market.total_platform_fees + split.platform_fee > u64::MAX
        || market.total_creator_fees + split.creator_fee > u64::MAX {
        Some(MarketError::FeeOverflow)
    } else {
        None
    }
}

/// Why a wager is turned down, if it is: the checks on the wager first, then
/// those on the ledger.
pub open spec fn bet_rejection(
    market: Market,
    params: GlobalParameters,
    bet_side: BetSide,
    amount: u64,
    now: i64,
) -> Option<MarketError> {
    match wager_rejection(market, params, amount, now) {
        Some(error) => Some(error),
        None => ledger_rejection(market, params, bet_side, amount),
    }
}

/// Checks a wager against the market and the configuration, and splits it.
///
/// This is all that is decided before the bettor's funds are moved: a caller
/// that moves them between this check and [`place_bet`] never moves funds
/// for a wager that the market or the configuration rules out. The fees on
/// a wager that passes the check must leave a rest of the amount, as they do
/// under valid rates.
pub fn validate_bet(market: &Market, params: &GlobalParameters, amount: u64, now: i64) -> (checked:
    Result<FeeSplit, MarketError>)
    requires
        wager_rejection(*market, *params, amount, now) is None ==> fees_fit(
            amount,
            params.platform_fee_bps,
            params.creator_fee_bps,
        ),
    ensures
        match wager_rejection(*market, *params, amount, now) {
            Some(error) => checked == Err::<FeeSplit, MarketError>(error),
            None => {
                let split = split_of(amount, params.platform_fee_bps, params.creator_fee_bps);
                &&& checked == Ok::<FeeSplit, MarketError>(split)
                &&& split.pool_amount + split.platform_fee + split.creator_fee == amount
            },
        },
{
    if market.status != MarketStatus::Active {
        return Err(MarketError::MarketNotActive);
    }
    if now >= market.end_date {
        return Err(MarketError::MarketEnded);
    }
    if amount < params.min_bet_lamports {
        return Err(MarketError::BetTooSmall);
    }
    if amount > params.max_bet_lamports {
        return Err(MarketError::BetTooLarge);
    }
    calculate_fees(amount, params.platform_fee_bps, params.creator_fee_bps)
}

/// The market once an accepted wager is entered in its ledger: the chosen
/// pool grows by the wager less its fees, the volume by the whole wager, the
/// counter by one and each fee counter by its fee.
pub open spec fn market_after_bet(
    market: Market,
    params: GlobalParameters,
    bet_side: BetSide,
    amount: u64,
) -> Market {
    let split = split_of(amount, params.platform_fee_bps, params.creator_fee_bps);
    Market {
        yes_pool: if bet_side == BetSide::Yes {
            (market.yes_pool + split.pool_amount) as u64
        } else {
            market.yes_pool
        },
        no_pool: if bet_side == BetSide::No {
            (market.no_pool + split.pool_amount) as u64
        } else {
            market.no_pool
        },
        total_volume: (market.total_volume + amount) as u64,
        total_bets: (market.total_bets + 1) as u64,
        total_platform_fees: (market.total_platform_fees + split.platform_fee) as u64,
        total_creator_fees: (market.total_creator_fees + split.creator_fee) as u64,
        ..market
    }
}

/// The position that records an accepted wager. `after` is the market with
/// the wager already entered: the odds are those of its pools.
pub open spec fn bet_record(
    after: Market,
    params: GlobalParameters,
    bettor: Pubkey,
    bet_side: BetSide,
    amount: u64,
    now: i64,
    bump: u8,
) -> UserBet {
    let split = split_of(amount, params.platform_fee_bps, params.creator_fee_bps);
    UserBet {
        market_id: after.market_id,
        bettor,
        bet_side,
        amount,
        amount_to_pool: split.pool_amount,
        platform_fee: split.platform_fee,
        creator_fee: split.creator_fee,
        timestamp: now,
        claimed: false,
        odds_at_bet: odds_of(after.yes_pool as nat, after.no_pool as nat) as u16,
        bump,
    }
}

/// The audit record of an accepted wager: the position's amounts and the
/// pools it left behind.
pub open spec fn bet_event(after: Market, bet: UserBet) -> BetPlacedEvent {
    BetPlacedEvent {
        market_id: bet.market_id,
        bettor: bet.bettor,
        bet_side: bet.bet_side,
        amount: bet.amount,
        amount_to_pool: bet.amount_to_pool,
        platform_fee: bet.platform_fee,
        creator_fee: bet.creator_fee,
        yes_pool: after.yes_pool,
        no_pool: after.no_pool,
        yes_odds: bet.odds_at_bet,
        timestamp: bet.timestamp,
    }
}

/// Takes a wager of `amount` from `bettor` on `bet_side`.
///
/// A rejected wager leaves the market untouched. An accepted one is entered
/// in the ledger and comes back as a new position with its audit record; the
/// caller moves `amount` from the bettor to the market's balance. The fees
/// on a wager that the market and the configuration allow must leave a rest
/// of the amount, as they do under valid rates.
pub fn place_bet(
    market: &mut Market,
    params: &GlobalParameters,
    bettor: Pubkey,
    bet_side: BetSide,
    amount: u64,
    now: i64,
    bump: u8,
) -> (placed: Result<(UserBet, BetPlacedEvent), MarketError>)
    requires
        wager_rejection(*old(market), *params, amount, now) is None ==> fees_fit(
            amount,
            params.platform_fee_bps,
            params.creator_fee_bps,
        ),
    ensures
        match bet_rejection(*old(market), *params, bet_side, amount, now) {
            Some(error) => {
                &&& placed == Err::<(UserBet, BetPlacedEvent), MarketError>(error)
                &&& *final(market) == *old(market)
            },
            None => {
                let after = market_after_bet(*old(market), *params, bet_side, amount);
                let bet = bet_record(after, *params, bettor, bet_side, amount, now, bump);
                &&& placed == Ok::<(UserBet, BetPlacedEvent), MarketError>(
                    (bet, bet_event(after, bet)),
                )
                &&& *final(market) == after
                &&& bet.parts_add_up()
            },
        },
        old(market).ledger_balanced() ==> final(market).ledger_balanced(),
        old(market).well_formed() ==> final(market).well_formed(),
{
    let split = match validate_bet(market, params, amount, now) {
        Ok(split) => split,
        Err(error) => {
            return Err(error);
        },
    };
    let side_pool = match bet_side {
        BetSide::Yes => market.yes_pool,
        BetSide::No => market.no_pool,
    };
    let new_pool = match side_pool.checked_add(split.pool_amount) {
        Some(sum) => sum,
        None => {
            return Err(MarketError::PoolOverflow);
        },
    };
    let new_volume = match market.total_volume.checked_add(amount) {
        Some(sum) => sum,
        None => {
            return Err(MarketError::TotalVolumeOverflow);
        },
    };
    let new_bets = match market.total_bets.checked_add(1) {
        Some(sum) => sum,
        None => {
            return Err(MarketError::TotalBetsOverflow);
        },
    };
    let new_platform_fees = match market.total_platform_fees.checked_add(split.platform_fee) {
        Some(sum) => sum,
        None => {
            return Err(MarketError::FeeOverflow);
        },
    };
    let new_creator_fees = match market.total_creator_fees.checked_add(split.creator_fee) {
        Some(sum) => sum,
        None => {
            return Err(MarketError::FeeOverflow);
        },
    };
    match bet_side {
        BetSide::Yes => {
            market.yes_pool = new_pool;
        },
        BetSide::No => {
            market.no_pool = new_pool;
        },
    }
    market.total_volume = new_volume;
    market.total_bets = new_bets;
    market.total_platform_fees = new_platform_fees;
    market.total_creator_fees = new_creator_fees;
    let yes_odds = calculate_odds(market.yes_pool, market.no_pool);
    let bet = UserBet {
        market_id: market.market_id,
        bettor,
        bet_side,
        amount,
        amount_to_pool: split.pool_amount,
        platform_fee: split.platform_fee,
        creator_fee: split.creator_fee,
        timestamp: now,
        claimed: false,
        odds_at_bet: yes_odds,
        bump,
    };
    let event = BetPlacedEvent {
        market_id: market.market_id,
        bettor,
        bet_side,
        amount,
        amount_to_pool: split.pool_amount,
        platform_fee: split.platform_fee,
        creator_fee: split.creator_fee,
        yes_pool: market.yes_pool,
        no_pool: market.no_pool,
        yes_odds,
        timestamp: now,
    };
    Ok((bet, event))
}

} // verus!
