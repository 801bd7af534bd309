//! The audit records of the five operations. Each carries what the operation
//! changed, for bookkeeping outside the engine.

use crate::market::BetSide;
use anchor_lang::prelude::Pubkey;
use vstd::prelude::*;

verus! {

/// A market was opened.
#[derive(Debug, PartialEq, Eq)]
pub struct MarketCreatedEvent {
    pub market_id: u64,
    pub creator: Pubkey,
    pub title: String,
    pub end_date: i64,
    pub timestamp: i64,
}

/// A wager was taken: its split, and the pools and odds it left behind.
#[derive(Clone, Copy, Debug, PartialEq, Eq)]
pub struct BetPlacedEvent {
    pub market_id: u64,
    pub bettor: Pubkey,
    pub bet_side: BetSide,
    pub amount: u64,
    pub amount_to_pool: u64,
    pub platform_fee: u64,
    pub creator_fee: u64,
    /// The pools after the wager.
    pub yes_pool: u64,
    pub no_pool: u64,
    pub yes_odds: u16,
    pub timestamp: i64,
}

/// A market was resolved: the outcome and the pools at that moment.
#[derive(Clone, Copy, Debug, PartialEq, Eq)]
pub struct MarketResolvedEvent {
    pub market_id: u64,
    pub outcome: BetSide,
    pub yes_pool: u64,
    pub no_pool: u64,
    pub timestamp: i64,
}

/// A winning position was paid.
#[derive(Clone, Copy, Debug, PartialEq, Eq)]
pub struct PayoutClaimedEvent {
    pub market_id: u64,
    pub bettor: Pubkey,
    /// What was paid.
    pub amount: u64,
    pub timestamp: i64,
}

/// A market was cancelled: the pools and the number of wagers at that moment.
#[derive(Clone, Copy, Debug, PartialEq, Eq)]
pub struct MarketCancelledEvent {
    pub market_id: u64,
    pub yes_pool: u64,
    pub no_pool: u64,
    pub total_bets: u64,
    pub timestamp: i64,
}

/// A position of a cancelled market was refunded.
#[derive(Clone, Copy, Debug, PartialEq, Eq)]
pub struct RefundClaimedEvent {
    pub market_id: u64,
    pub bettor: Pubkey,
    /// What was refunded.
    pub amount: u64,
    pub timestamp: i64,
}

impl Clone for MarketCreatedEvent {
    fn clone(&self) -> (copy: Self)
        ensures
            copy == *self,
    {
        MarketCreatedEvent {
            market_id: self.market_id,
            creator: self.creator,
            title: self.title.clone(),
            end_date: self.end_date,
            timestamp: self.timestamp,
        }
    }
}

} // verus!
