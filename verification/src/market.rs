//! The records the engine keeps: a market with its pool ledger, and one
//! position per wager.

use anchor_lang::prelude::Pubkey;
use vstd::prelude::*;

verus! {

/// One of the two sides of a market.
#[derive(Clone, Copy, Debug, PartialEq, Eq, Structural)]
pub enum BetSide {
    Yes,
    No,
}

/// Where a market stands in its life. `Resolved` and `Cancelled` are final.
#[derive(Clone, Copy, Debug, PartialEq, Eq, Structural)]
pub enum MarketStatus {
    Active,
    Resolved,
    Cancelled,
}

/// A prediction market and its pool ledger. Amounts are in the smallest unit
/// of the currency.
#[derive(Debug, PartialEq, Eq)]
pub struct Market {
    pub market_id: u64,
    pub creator: Pubkey,
    pub title: String,
    pub description: String,
    /// Wagers are taken before this moment, resolution and cancellation from it on.
    pub end_date: i64,
    pub yes_pool: u64,
    pub no_pool: u64,
    /// The sum of all wagers accepted, fees included.
    pub total_volume: u64,
    /// Platform fees taken from wagers, handed out at resolution.
    pub total_platform_fees: u64,
    /// Creator fees taken from wagers, handed out at resolution.
    pub total_creator_fees: u64,
    /// All that has been paid out or refunded so far.
    pub total_claimed: u64,
    pub status: MarketStatus,
    /// The winning side; set when the market is resolved.
    pub resolved_outcome: Option<BetSide>,
    pub created_at: i64,
    pub total_bets: u64,
    pub unique_bettors: u32,
    pub bump: u8,
}

/// One wager. Nothing but `claimed` changes after it is recorded.
#[derive(Clone, Copy, Debug, PartialEq, Eq)]
pub struct UserBet {
    pub market_id: u64,
    pub bettor: Pubkey,
    pub bet_side: BetSide,
    /// What the bettor paid.
    pub amount: u64,
    /// What entered the pool: the amount less both fees.
    pub amount_to_pool: u64,
    pub platform_fee: u64,
    pub creator_fee: u64,
    pub timestamp: i64,
    /// Set once the position has been paid out or refunded.
    pub claimed: bool,
    /// The odds of "yes", in basis points, right after this wager.
    pub odds_at_bet: u16,
    pub bump: u8,
}

impl BetSide {
    /// The other side.
    pub open spec fn opposite(self) -> BetSide {
        match self {
            BetSide::Yes => BetSide::No,
            BetSide::No => BetSide::Yes,
        }
    }
}

impl Market {
    /// The pool of one side.
    pub open spec fn pool_of(self, side: BetSide) -> u64 {
        match side {
            BetSide::Yes => self.yes_pool,
            BetSide::No => self.no_pool,
        }
    }

    /// Both pools together.
    pub open spec fn pool_total(self) -> nat {
        (self.yes_pool + self.no_pool) as nat
    }

    /// What the pools still hold once everything claimed so far is taken off.
    pub open spec fn remaining(self) -> int {
        self.pool_total() - self.total_claimed
    }

    /// Every unit wagered is either in a pool or in a fee counter.
    pub open spec fn ledger_balanced(self) -> bool {
        self.yes_pool + self.no_pool + self.total_platform_fees + self.total_creator_fees
            == self.total_volume
    }

    /// The invariant of a market: the ledger is balanced, no more has been
    /// claimed than the pools hold, nothing is claimed while the market is
    /// active, and an outcome is recorded exactly when the market is resolved.
    pub open spec fn well_formed(self) -> bool {
        &&& self.ledger_balanced()
        &&& self.total_claimed <= self.pool_total()
        &&& (self.status == MarketStatus::Active ==> self.total_claimed == 0)
        &&& (self.status == MarketStatus::Resolved <==> self.resolved_outcome is Some)
    }
}

impl Clone for Market {
    fn clone(&self) -> (copy: Self)
        ensures
            copy == *self,
    {
        Market {
            market_id: self.market_id,
            creator: self.creator,
            title: self.title.clone(),
            description: self.description.clone(),
            end_date: self.end_date,
            yes_pool: self.yes_pool,
            no_pool: self.no_pool,
            total_volume: self.total_volume,
            total_platform_fees: self.total_platform_fees,
            total_creator_fees: self.total_creator_fees,
            total_claimed: self.total_claimed,
            status: self.status,
            resolved_outcome: self.resolved_outcome,
            created_at: self.created_at,
            total_bets: self.total_bets,
            unique_bettors: self.unique_bettors,
            bump: self.bump,
        }
    }
}

impl UserBet {
    /// The three parts of the wager add up to what the bettor paid.
    pub open spec fn parts_add_up(self) -> bool {
        self.amount_to_pool + self.platform_fee + self.creator_fee == self.amount
    }
}

} // verus!
