//! A market kept together with its positions.
//!
//! The book is where the ledger and the positions are held against each
//! other: each pool is the sum of the stakes on its side, the volume the sum
//! of the wagers, and what has been claimed the sum of what the claimed
//! positions were paid. Positions are known by their sequence number, the
//! order in which they were taken.

use crate::calculator::fees_fit;
use crate::errors::MarketError;
use crate::events::{
    BetPlacedEvent,
    MarketCancelledEvent,
    MarketCreatedEvent,
    PayoutClaimedEvent,
    RefundClaimedEvent,
};
use crate::market::{BetSide, Market, MarketStatus, UserBet};
use crate::parameters::GlobalParameters;
use crate::payout::{
    calculated_payout,
    capped,
    claim_payout,
    claim_refund,
    claimed_bet,
    market_after_claim,
    payout_rejection,
    raw_payout,
    refund_amount,
    refund_rejection,
    Payout,
};
use crate::settlement::{
    cancel_market,
    cancellation_event,
    cancellation_rejection,
    market_after_cancellation,
    market_after_resolution,
    resolution_of,
    resolution_rejection,
    resolve_market,
    Resolution,
};
use crate::sums::{
    lemma_sum_at_most,
    lemma_sum_below,
    lemma_sum_of_nothing,
    lemma_sum_push,
    lemma_sum_update,
    sum_of,
};
use crate::wager::{
    bet_event,
    bet_record,
    bet_rejection,
    create_market,
    creation_rejection,
    market_after_bet,
    place_bet,
    wager_rejection,
};
use anchor_lang::prelude::Pubkey;
use vstd::prelude::*;

verus! {

/// A market and the positions taken in it, in the order they were taken.
#[derive(Debug)]
pub struct MarketBook {
    market: Market,
    positions: Vec<UserBet>,
}

/// What a position staked on `side`: its stake if it is on that side.
pub open spec fn stake_on(side: BetSide) -> spec_fn(UserBet) -> nat {
    |position: UserBet|
        if position.bet_side == side {
            position.amount_to_pool as nat
        } else {
            0nat
        }
}

/// What the bettor of a position paid.
pub open spec fn wagered() -> spec_fn(UserBet) -> nat {
    |position: UserBet| position.amount as nat
}

/// The platform fee taken from a position.
pub open spec fn platform_fee_taken() -> spec_fn(UserBet) -> nat {
    |position: UserBet| position.platform_fee as nat
}

/// The creator fee taken from a position.
pub open spec fn creator_fee_taken() -> spec_fn(UserBet) -> nat {
    |position: UserBet| position.creator_fee as nat
}

/// What a position is owed once `side` has won: its stake and its share of
/// the losing pool if it is on that side, nothing if it is not.
pub open spec fn owed(side: BetSide, winning_pool: nat, losing_pool: nat) -> spec_fn(
    UserBet,
) -> nat {
    |position: UserBet|
        if position.bet_side == side {
            raw_payout(position.amount_to_pool as nat, winning_pool, losing_pool)
        } else {
            0nat
        }
}

/// What a position has been paid once `side` has won: what it is owed if it
/// has claimed, nothing if it has not.
pub open spec fn paid(side: BetSide, winning_pool: nat, losing_pool: nat) -> spec_fn(
    UserBet,
) -> nat {
    |position: UserBet|
        if position.claimed && position.bet_side == side {
            raw_payout(position.amount_to_pool as nat, winning_pool, losing_pool)
        } else {
            0nat
        }
}

/// The share of the losing pool that a position earns once `side` has won.
pub open spec fn share(side: BetSide, winning_pool: nat, losing_pool: nat) -> spec_fn(
    UserBet,
) -> nat {
    |position: UserBet|
        if position.bet_side == side {
            position.amount_to_pool as nat * losing_pool / winning_pool
        } else {
            0nat
        }
}

/// What rounding down takes from the share of a position, in units of one
/// `winning_pool`-th.
pub open spec fn dust(side: BetSide, winning_pool: nat, losing_pool: nat) -> spec_fn(
    UserBet,
) -> nat {
    |position: UserBet|
        if position.bet_side == side {
            position.amount_to_pool as nat * losing_pool % winning_pool
        } else {
            0nat
        }
}

/// One for a position on `side`, to count them.
pub open spec fn one_on(side: BetSide) -> spec_fn(UserBet) -> nat {
    |position: UserBet|
        if position.bet_side == side {
            1nat
        } else {
            0nat
        }
}

/// What a position asks back from a cancelled market once it has claimed:
/// all that its bettor paid.
pub open spec fn reclaimed() -> spec_fn(UserBet) -> nat {
    |position: UserBet|
        if position.claimed {
            position.amount as nat
        } else {
            0nat
        }
}

/// The ledger and the positions agree.
///
/// The ledger is well formed and counts the positions; each pool is the sum
/// of the stakes on its side, the volume the sum of the wagers and each fee
/// counter the sum of its fees; every position belongs to the market and is
/// the sum of its parts. While the market is active nothing is claimed; once
/// it is resolved, what has been claimed is what the claimed winners were
/// owed; once it is cancelled, it is what the claimed positions asked back,
/// as far as the pools went.
pub open spec fn agree(market: Market, positions: Seq<UserBet>) -> bool {
    &&& market.well_formed()
    &&& positions.len() == market.total_bets
    &&& sum_of(positions, stake_on(BetSide::Yes)) == market.yes_pool
    &&& sum_of(positions, stake_on(BetSide::No)) == market.no_pool
    &&& sum_of(positions, wagered()) == market.total_volume
    &&& sum_of(positions, platform_fee_taken()) == market.total_platform_fees
    &&& sum_of(positions, creator_fee_taken()) == market.total_creator_fees
    &&& forall|i: int|
        0 <= i < positions.len() ==> (#[trigger] positions[i]).market_id == market.market_id
            && positions[i].parts_add_up()
    &&& match market.status {
        MarketStatus::Active => forall|i: int|
            0 <= i < positions.len() ==> !(#[trigger] positions[i]).claimed,
        MarketStatus::Resolved => market.resolved_outcome matches Some(side)
            && market.total_claimed == sum_of(
            positions,
            paid(
                side,
                market.pool_of(side) as nat,
                market.pool_of(side.opposite()) as nat,
            ),
        ),
        MarketStatus::Cancelled => market.total_claimed == capped(
            sum_of(positions, reclaimed()),
            market.pool_total(),
        ),
    }
}

/// The stakes on the winning side, times the losing pool, split into whole
/// shares and dust; and what the positions are owed is their stakes and
/// their shares.
pub proof fn lemma_owed_is_stake_and_share(
    positions: Seq<UserBet>,
    side: BetSide,
    winning_pool: nat,
    losing_pool: nat,
)
    requires
        winning_pool > 0,
    ensures
        sum_of(positions, owed(side, winning_pool, losing_pool)) == sum_of(
            positions,
            stake_on(side),
        ) + sum_of(positions, share(side, winning_pool, losing_pool)),
        sum_of(positions, stake_on(side)) * losing_pool == winning_pool * sum_of(
            positions,
            share(side, winning_pool, losing_pool),
        ) + sum_of(positions, dust(side, winning_pool, losing_pool)),
        sum_of(positions, dust(side, winning_pool, losing_pool)) <= sum_of(
            positions,
            one_on(side),
        ) * (winning_pool - 1),
    decreases positions.len(),
{
    let stakes = sum_of(positions, stake_on(side));
    let shares = sum_of(positions, share(side, winning_pool, losing_pool));
    let dusts = sum_of(positions, dust(side, winning_pool, losing_pool));
    let count = sum_of(positions, one_on(side));
    if positions.len() == 0 {
        assert(stakes * losing_pool == 0) by (nonlinear_arith)
            requires
                stakes == 0,
        ;
        assert(winning_pool * shares == 0) by (nonlinear_arith)
            requires
                shares == 0,
        ;
        assert(count * (winning_pool - 1) == 0) by (nonlinear_arith)
            requires
                count == 0,
        ;
    } else {
        let front = positions.drop_last();
        let last = positions.last();
        lemma_owed_is_stake_and_share(front, side, winning_pool, losing_pool);
        let front_stakes = sum_of(front, stake_on(side));
        let front_shares = sum_of(front, share(side, winning_pool, losing_pool));
        let front_dusts = sum_of(front, dust(side, winning_pool, losing_pool));
        let front_count = sum_of(front, one_on(side));
        if last.bet_side == side {
            let stake = last.amount_to_pool as nat;
            let product = stake * losing_pool;
            let whole = product / winning_pool;
            let rest = product % winning_pool;
            assert(product == winning_pool * whole + rest && rest <= winning_pool - 1)
                by (nonlinear_arith)
                requires
                    winning_pool > 0,
                    whole == product / winning_pool,
                    rest == product % winning_pool,
            ;
            assert((front_stakes + stake) * losing_pool == winning_pool * (front_shares + whole)
                + (front_dusts + rest)) by (nonlinear_arith)
                requires
                    product == stake * losing_pool,
                    product == winning_pool * whole + rest,
                    front_stakes * losing_pool == winning_pool * front_shares + front_dusts,
            ;
            assert(front_dusts + rest <= (front_count + 1) * (winning_pool - 1))
                by (nonlinear_arith)
                requires
                    rest <= winning_pool - 1,
                    front_dusts <= front_count * (winning_pool - 1),
            ;
        }
    }
}

/// What the positions on the winning side are owed, all together, is no
/// more than both pools hold, where their stakes make up the winning pool;
/// and it falls short of both pools by less than one unit for each of them.
pub proof fn lemma_owed_within_pools(
    positions: Seq<UserBet>,
    side: BetSide,
    winning_pool: nat,
    losing_pool: nat,
)
    requires
        winning_pool > 0,
        sum_of(positions, stake_on(side)) == winning_pool,
    ensures
        sum_of(positions, owed(side, winning_pool, losing_pool)) <= winning_pool + losing_pool,
        winning_pool + losing_pool - sum_of(positions, owed(side, winning_pool, losing_pool))
            < sum_of(positions, one_on(side)),
{
    lemma_owed_is_stake_and_share(positions, side, winning_pool, losing_pool);
    let shares = sum_of(positions, share(side, winning_pool, losing_pool));
    let dusts = sum_of(positions, dust(side, winning_pool, losing_pool));
    let count = sum_of(positions, one_on(side));
    let short = losing_pool - shares;
    assert(winning_pool * short == dusts) by (nonlinear_arith)
        requires
            winning_pool * losing_pool == winning_pool * shares + dusts,
            short == losing_pool - shares,
    ;
    assert(count > 0) by {
        if count == 0 {
            assert(dusts == 0) by (nonlinear_arith)
                requires
                    dusts <= count * (winning_pool - 1),
                    count == 0,
                    dusts >= 0,
            ;
            lemma_no_stake_without_positions(positions, side);
        }
    }
    assert(0 <= short < count) by (nonlinear_arith)
        requires
            winning_pool > 0,
            count > 0,
            winning_pool * short == dusts,
            0 <= dusts <= count * (winning_pool - 1),
    ;
}

/// Where no position is on a side, nothing is staked on it.
proof fn lemma_no_stake_without_positions(positions: Seq<UserBet>, side: BetSide)
    requires
        sum_of(positions, one_on(side)) == 0,
    ensures
        sum_of(positions, stake_on(side)) == 0,
    decreases positions.len(),
{
    if positions.len() > 0 {
        lemma_no_stake_without_positions(positions.drop_last(), side);
    }
}

impl MarketBook {
    /// The market of the book.
    pub closed spec fn ledger(self) -> Market {
        self.market
    }

    /// The positions of the book, by sequence number.
    pub closed spec fn entries(self) -> Seq<UserBet> {
        self.positions@
    }

    /// The invariant of a book: its ledger and its positions agree.
    pub open spec fn consistent(self) -> bool {
        agree(self.ledger(), self.entries())
    }

    /// Opens the book of a new market, as [`create_market`] opens the market.
    pub fn open(
        market_id: u64,
        creator: Pubkey,
        title: String,
        description: String,
        end_date: i64,
        now: i64,
        bump: u8,
    ) -> (opened: Result<(MarketBook, MarketCreatedEvent), MarketError>)
        ensures
            match creation_rejection(title@, description@, end_date, now) {
                Some(error) => opened == Err::<(MarketBook, MarketCreatedEvent), MarketError>(
                    error,
                ),
                None => opened matches Ok((book, event)) && {
                    &&& book.consistent()
                    &&& book.entries().len() == 0
                    &&& book.ledger().market_id == market_id
                    &&& book.ledger().creator == creator
                    &&& book.ledger().title@ == title@
                    &&& book.ledger().description@ == description@
                    &&& book.ledger().end_date == end_date
                    &&& book.ledger().created_at == now
                    &&& book.ledger().bump == bump
                    &&& book.ledger().status == MarketStatus::Active
                    &&& book.ledger().total_volume == 0
                    &&& book.ledger().unique_bettors == 0
                    &&& event.market_id == market_id
                    &&& event.creator == creator
                    &&& event.title@ == title@
                    &&& event.end_date == end_date
                    &&& event.timestamp == now
                },
            },
    {
        match create_market(market_id, creator, title, description, end_date, now, bump) {
            Ok((market, event)) => {
                let book = MarketBook { market, positions: Vec::new() };
                Ok((book, event))
            },
            Err(error) => Err(error),
        }
    }

    /// The market of the book.
    pub fn market(&self) -> (market: &Market)
        ensures
            *market == self.ledger(),
    {
        &self.market
    }

    /// How many positions the book holds.
    pub fn position_count(&self) -> (count: usize)
        ensures
            count == self.entries().len(),
    {
        self.positions.len()
    }

    /// The position with the given sequence number, if there is one.
    pub fn position(&self, sequence: usize) -> (found: Option<&UserBet>)
        ensures
            sequence < self.entries().len() ==> found == Some(&self.entries()[sequence as int]),
            sequence >= self.entries().len() ==> found is None,
    {
        if sequence < self.positions.len() {
            Some(&self.positions[sequence])
        } else {
            None
        }
    }

    /// Takes a wager, as [`place_bet`] does, and enters the new position in
    /// the book. The position's sequence number comes back with the audit
    /// record.
    pub fn place_bet(
        &mut self,
        params: &GlobalParameters,
        bettor: Pubkey,
        bet_side: BetSide,
        amount: u64,
        now: i64,
        bump: u8,
    ) -> (placed: Result<(usize, BetPlacedEvent), MarketError>)
        requires
            old(self).consistent(),
            wager_rejection(old(self).ledger(), *params, amount, now) is None ==> fees_fit(
                amount,
                params.platform_fee_bps,
                params.creator_fee_bps,
            ),
        ensures
            final(self).consistent(),
            match bet_rejection(old(self).ledger(), *params, bet_side, amount, now) {
                Some(error) => {
                    &&& placed == Err::<(usize, BetPlacedEvent), MarketError>(error)
                    &&& final(self).ledger() == old(self).ledger()
                    &&& final(self).entries() == old(self).entries()
                },
                None => {
                    let after = market_after_bet(old(self).ledger(), *params, bet_side, amount);
                    let bet = bet_record(after, *params, bettor, bet_side, amount, now, bump);
                    &&& placed == Ok::<(usize, BetPlacedEvent), MarketError>(
                        (old(self).entries().len() as usize, bet_event(after, bet)),
                    )
                    &&& final(self).ledger() == after
                    &&& final(self).entries() == old(self).entries().push(bet)
                },
            },
    {
        let ghost before = self.positions@;
        match place_bet(&mut self.market, params, bettor, bet_side, amount, now, bump) {
            Ok((bet, event)) => {
                let sequence = self.positions.len();
                self.positions.push(bet);
                proof {
                    lemma_sum_push(before, bet, stake_on(BetSide::Yes));
                    lemma_sum_push(before, bet, stake_on(BetSide::No));
                    lemma_sum_push(before, bet, wagered());
                    lemma_sum_push(before, bet, platform_fee_taken());
                    lemma_sum_push(before, bet, creator_fee_taken());
                }
                Ok((sequence, event))
            },
            Err(error) => Err(error),
        }
    }

    /// Resolves the market of the book, as [`resolve_market`] does.
    pub fn resolve(
        &mut self,
        params: &GlobalParameters,
        authority: Pubkey,
        platform_wallet: Pubkey,
        creator_wallet: Pubkey,
        outcome: BetSide,
        now: i64,
    ) -> (resolved: Result<Resolution, MarketError>)
        requires
            old(self).consistent(),
        ensures
            final(self).consistent(),
            final(self).entries() == old(self).entries(),
            match resolution_rejection(
                old(self).ledger(),
                *params,
                authority,
                platform_wallet,
                creator_wallet,
                now,
            ) {
                Some(error) => {
                    &&& resolved == Err::<Resolution, MarketError>(error)
                    &&& final(self).ledger() == old(self).ledger()
                },
                None => {
                    let after = market_after_resolution(old(self).ledger(), outcome);
                    &&& resolved == Ok::<Resolution, MarketError>(
                        resolution_of(after, outcome, now),
                    )
                    &&& final(self).ledger() == after
                },
            },
    {
        let resolved = resolve_market(
            &mut self.market,
            params,
            authority,
            platform_wallet,
            creator_wallet,
            outcome,
            now,
        );
        proof {
            if resolved is Ok {
                lemma_sum_of_nothing(
                    self.positions@,
                    paid(
                        outcome,
                        self.market.pool_of(outcome) as nat,
                        self.market.pool_of(outcome.opposite()) as nat,
                    ),
                );
            }
        }
        resolved
    }

    /// Cancels the market of the book, as [`cancel_market`] does.
    pub fn cancel(&mut self, params: &GlobalParameters, authority: Pubkey, now: i64) -> (cancelled:
        Result<MarketCancelledEvent, MarketError>)
        requires
            old(self).consistent(),
        ensures
            final(self).consistent(),
            final(self).entries() == old(self).entries(),
            match cancellation_rejection(old(self).ledger(), *params, authority, now) {
                Some(error) => {
                    &&& cancelled == Err::<MarketCancelledEvent, MarketError>(error)
                    &&& final(self).ledger() == old(self).ledger()
                },
                None => {
                    &&& cancelled == Ok::<MarketCancelledEvent, MarketError>(
                        cancellation_event(old(self).ledger(), now),
                    )
                    &&& final(self).ledger() == market_after_cancellation(old(self).ledger())
                },
            },
    {
        let cancelled = cancel_market(&mut self.market, params, authority, now);
        proof {
            if cancelled is Ok {
                lemma_sum_of_nothing(self.positions@, reclaimed());
            }
        }
        cancelled
    }

    /// Pays the position with the given sequence number its share of the
    /// resolved market, as [`claim_payout`] does.
    ///
    /// In a book the cap never comes into play: a winner is paid the stake
    /// and its share in full, whoever claimed before, and no claim is
    /// rejected for the state of the ledger. There is no answer for a
    /// sequence number that the book does not hold.
    pub fn claim_payout(&mut self, sequence: usize, bettor: Pubkey, now: i64) -> (paid_out: Option<
        Result<Payout, MarketError>,
    >)
        requires
            old(self).consistent(),
        ensures
            final(self).consistent(),
            sequence >= old(self).entries().len() ==> {
                &&& paid_out is None
                &&& final(self).ledger() == old(self).ledger()
                &&& final(self).entries() == old(self).entries()
            },
            sequence < old(self).entries().len() ==> {
                let bet = old(self).entries()[sequence as int];
                match payout_rejection(old(self).ledger(), bet, bettor) {
                    Some(error) => {
                        &&& paid_out == Some(Err::<Payout, MarketError>(error))
                        &&& final(self).ledger() == old(self).ledger()
                        &&& final(self).entries() == old(self).entries()
                        &&& error != MarketError::PoolOverflow
                        &&& error != MarketError::TotalClaimedOverflow
                    },
                    None => {
                        let amount = calculated_payout(old(self).ledger(), bet);
                        &&& amount <= old(self).ledger().remaining()
                        &&& paid_out == Some(
                            Ok::<Payout, MarketError>(
                                (Payout {
                                    calculated_payout: amount as u128,
                                    remaining_pool: old(self).ledger().remaining() as u64,
                                    event: PayoutClaimedEvent {
                                        market_id: old(self).ledger().market_id,
                                        bettor,
                                        amount: amount as u64,
                                        timestamp: now,
                                    },
                                }),
                            ),
                        )
                        &&& final(self).ledger() == market_after_claim(old(self).ledger(), amount)
                        &&& final(self).entries() == old(self).entries().update(
                            sequence as int,
                            claimed_bet(bet),
                        )
                    },
                }
            },
    {
        if sequence >= self.positions.len() {
            return None;
        }
        let ghost before = self.positions@;
        let ghost market_before = self.market;
        let mut bet = self.positions[sequence];
        proof {
            let side = bet.bet_side;
            if self.market.status == MarketStatus::Resolved && self.market.resolved_outcome == Some(
                side,
            ) && self.market.pool_of(side) > 0 && !bet.claimed {
                let winning = self.market.pool_of(side) as nat;
                let losing = self.market.pool_of(side.opposite()) as nat;
                lemma_owed_within_pools(before, side, winning, losing);
                assert forall|i: int| 0 <= i < before.len() implies paid(side, winning, losing)(
                    #[trigger] before[i],
                ) <= owed(side, winning, losing)(before[i]) by {}
                lemma_sum_below(
                    before,
                    paid(side, winning, losing),
                    owed(side, winning, losing),
                    sequence as int,
                );
            }
        }
        let paid_out = claim_payout(&mut self.market, &mut bet, bettor, now);
        if paid_out.is_ok() {
            self.positions.set(sequence, bet);
            proof {
                let side = bet.bet_side;
                let winning = market_before.pool_of(side) as nat;
                let losing = market_before.pool_of(side.opposite()) as nat;
                let old_bet = before[sequence as int];
                lemma_sum_update(before, sequence as int, bet, stake_on(BetSide::Yes));
                lemma_sum_update(before, sequence as int, bet, stake_on(BetSide::No));
                lemma_sum_update(before, sequence as int, bet, wagered());
                lemma_sum_update(before, sequence as int, bet, platform_fee_taken());
                lemma_sum_update(before, sequence as int, bet, creator_fee_taken());
                lemma_sum_update(before, sequence as int, bet, paid(side, winning, losing));
            }
        }
        Some(paid_out)
    }

    /// Refunds the position with the given sequence number from the
    /// cancelled market, as [`claim_refund`] does.
    ///
    /// In a book no refund is rejected for the state of the ledger. There is
    /// no answer for a sequence number that the book does not hold.
    pub fn claim_refund(&mut self, sequence: usize, bettor: Pubkey, now: i64) -> (refunded: Option<
        Result<RefundClaimedEvent, MarketError>,
    >)
        requires
            old(self).consistent(),
        ensures
            final(self).consistent(),
            sequence >= old(self).entries().len() ==> {
                &&& refunded is None
                &&& final(self).ledger() == old(self).ledger()
                &&& final(self).entries() == old(self).entries()
            },
            sequence < old(self).entries().len() ==> {
                let bet = old(self).entries()[sequence as int];
                match refund_rejection(old(self).ledger(), bet, bettor) {
                    Some(error) => {
                        &&& refunded == Some(Err::<RefundClaimedEvent, MarketError>(error))
                        &&& final(self).ledger() == old(self).ledger()
                        &&& final(self).entries() == old(self).entries()
                        &&& error != MarketError::PoolOverflow
                        &&& error != MarketError::TotalClaimedOverflow
                    },
                    None => {
                        let amount = refund_amount(old(self).ledger(), bet);
                        &&& refunded == Some(
                            Ok::<RefundClaimedEvent, MarketError>(
                                (RefundClaimedEvent {
                                    market_id: old(self).ledger().market_id,
                                    bettor,
                                    amount: amount as u64,
                                    timestamp: now,
                                }),
                            ),
                        )
                        &&& final(self).ledger() == market_after_claim(old(self).ledger(), amount)
                        &&& final(self).entries() == old(self).entries().update(
                            sequence as int,
                            claimed_bet(bet),
                        )
                    },
                }
            },
    {
        if sequence >= self.positions.len() {
            return None;
        }
        let ghost before = self.positions@;
        let mut bet = self.positions[sequence];
        let refunded = claim_refund(&mut self.market, &mut bet, bettor, now);
        if refunded.is_ok() {
            self.positions.set(sequence, bet);
            proof {
                lemma_sum_update(before, sequence as int, bet, stake_on(BetSide::Yes));
                lemma_sum_update(before, sequence as int, bet, stake_on(BetSide::No));
                lemma_sum_update(before, sequence as int, bet, wagered());
                lemma_sum_update(before, sequence as int, bet, platform_fee_taken());
                lemma_sum_update(before, sequence as int, bet, creator_fee_taken());
                lemma_sum_update(before, sequence as int, bet, reclaimed());
            }
        }
        Some(refunded)
    }

    /// In a book no more is ever claimed than the pools hold, and the pools
    /// hold no more than was wagered: what leaves a market never exceeds
    /// what entered it. While the market is resolved, what has been claimed
    /// is also no more than the winners are owed.
    pub proof fn lemma_never_overdrawn(self)
        requires
            self.consistent(),
        ensures
            self.ledger().total_claimed <= self.ledger().pool_total(),
            self.ledger().pool_total() + self.ledger().total_platform_fees
                + self.ledger().total_creator_fees == self.ledger().total_volume,
            self.ledger().resolved_outcome matches Some(side) ==> self.ledger().total_claimed
                <= sum_of(
                self.entries(),
                owed(
                    side,
                    self.ledger().pool_of(side) as nat,
                    self.ledger().pool_of(side.opposite()) as nat,
                ),
            ),
    {
        if let Some(side) = self.ledger().resolved_outcome {
            let winning = self.ledger().pool_of(side) as nat;
            let losing = self.ledger().pool_of(side.opposite()) as nat;
            assert forall|i: int| 0 <= i < self.entries().len() implies paid(
                side,
                winning,
                losing,
            )(#[trigger] self.entries()[i]) <= owed(side, winning, losing)(self.entries()[i]) by {}
            lemma_sum_at_most(
                self.entries(),
                paid(side, winning, losing),
                owed(side, winning, losing),
            );
        }
    }

    /// Once every winner of a book has claimed, what has been paid is all
    /// that the winners were owed: both pools but for the rounding dust,
    /// which is less than one unit for each winner.
    pub proof fn lemma_winners_paid_in_full(self, side: BetSide)
        requires
            self.consistent(),
            self.ledger().resolved_outcome == Some(side),
            self.ledger().pool_of(side) > 0,
            forall|i: int|
                0 <= i < self.entries().len() && (#[trigger] self.entries()[i]).bet_side == side
                    ==> self.entries()[i].claimed,
        ensures
            self.ledger().total_claimed == sum_of(
                self.entries(),
                owed(
                    side,
                    self.ledger().pool_of(side) as nat,
                    self.ledger().pool_of(side.opposite()) as nat,
                ),
            ),
            self.ledger().total_claimed == self.ledger().pool_of(side) + sum_of(
                self.entries(),
                share(
                    side,
                    self.ledger().pool_of(side) as nat,
                    self.ledger().pool_of(side.opposite()) as nat,
                ),
            ),
            self.ledger().total_claimed <= self.ledger().pool_total(),
            self.ledger().pool_total() - self.ledger().total_claimed < sum_of(
                self.entries(),
                one_on(side),
            ),
    {
        let winning = self.ledger().pool_of(side) as nat;
        let losing = self.ledger().pool_of(side.opposite()) as nat;
        let entries = self.entries();
        assert forall|i: int| 0 <= i < entries.len() implies paid(side, winning, losing)(
            #[trigger] entries[i],
        ) <= owed(side, winning, losing)(entries[i]) by {}
        assert forall|i: int| 0 <= i < entries.len() implies owed(side, winning, losing)(
            #[trigger] entries[i],
        ) <= paid(side, winning, losing)(entries[i]) by {}
        lemma_sum_at_most(entries, paid(side, winning, losing), owed(side, winning, losing));
        lemma_sum_at_most(entries, owed(side, winning, losing), paid(side, winning, losing));
        lemma_owed_is_stake_and_share(entries, side, winning, losing);
        lemma_owed_within_pools(entries, side, winning, losing);
    }
}

} // verus!
