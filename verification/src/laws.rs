//! What holds of the engine as a whole: over sequences of wagers and claims,
//! and across operations.

use crate::calculator::fees_fit;
use crate::errors::MarketError;
use crate::keys::is_same_key;
use crate::market::{BetSide, Market, MarketStatus, UserBet};
use crate::parameters::GlobalParameters;
use crate::payout::{
    calculated_payout,
    claimed_bet,
    lemma_payout_fits,
    market_after_claim,
    payout_amount,
    payout_rejection,
    refund_amount,
    refund_rejection,
};
use crate::settlement::{cancellation_rejection, resolution_rejection};
use crate::wager::{bet_rejection, market_after_bet};
use anchor_lang::prelude::Pubkey;
use vstd::prelude::*;

verus! {

/// A wager as it reaches the engine: the configuration read for it, the side,
/// the amount and the time.
pub struct Wager {
    pub params: GlobalParameters,
    pub bet_side: BetSide,
    pub amount: u64,
    pub now: i64,
}

/// The market after one wager: entered in the ledger if it is accepted,
/// unchanged if it is rejected.
pub open spec fn market_after_wager(market: Market, wager: Wager) -> Market {
    if bet_rejection(market, wager.params, wager.bet_side, wager.amount, wager.now) is None {
        market_after_bet(market, wager.params, wager.bet_side, wager.amount)
    } else {
        market
    }
}

/// The market after a sequence of wagers, taken in order.
pub open spec fn market_after_wagers(market: Market, wagers: Seq<Wager>) -> Market
    decreases wagers.len(),
{
    if wagers.len() == 0 {
        market
    } else {
        market_after_wagers(market_after_wager(market, wagers.first()), wagers.drop_first())
    }
}

impl Wager {
    /// The fees on the wager leave a rest for the pool.
    pub open spec fn fits(self) -> bool {
        fees_fit(self.amount, self.params.platform_fee_bps, self.params.creator_fee_bps)
    }
}

/// The fees on every wager in the sequence leave a rest for the pool.
pub open spec fn all_fit(wagers: Seq<Wager>) -> bool {
    forall|i: int| 0 <= i < wagers.len() ==> (#[trigger] wagers[i]).fits()
}

/// One wager keeps the ledger balanced and the market well formed.
pub proof fn lemma_wager_keeps_ledger_balanced(market: Market, wager: Wager)
    requires
        wager.fits(),
    ensures
        market.ledger_balanced() ==> market_after_wager(market, wager).ledger_balanced(),
        market.well_formed() ==> market_after_wager(market, wager).well_formed(),
{
}

/// Whatever wagers a market takes, in whatever order, its two pools hold
/// exactly the volume less the fees: the ledger stays balanced.
pub proof fn lemma_wagers_keep_ledger_balanced(market: Market, wagers: Seq<Wager>)
    requires
        market.ledger_balanced(),
        all_fit(wagers),
    ensures
        ({
            let after = market_after_wagers(market, wagers);
            &&& after.ledger_balanced()
            &&& after.yes_pool + after.no_pool == after.total_volume - after.total_platform_fees
                - after.total_creator_fees
            &&& market.well_formed() ==> after.well_formed()
        }),
    decreases wagers.len(),
{
    if wagers.len() > 0 {
        lemma_wager_keeps_ledger_balanced(market, wagers.first());
        let rest = wagers.drop_first();
        assert forall|i: int| 0 <= i < rest.len() implies (#[trigger] rest[i]).fits() by {
            assert(rest[i] == wagers[i + 1]);
        }
        lemma_wagers_keep_ledger_balanced(market_after_wager(market, wagers.first()), rest);
    }
}

/// The sum paid when each position in `bets` is claimed by its own bettor,
/// one after the other. A claim that is rejected pays nothing.
pub open spec fn total_paid(market: Market, bets: Seq<UserBet>) -> nat
    decreases bets.len(),
{
    if bets.len() == 0 {
        0
    } else {
        let bet = bets.first();
        if payout_rejection(market, bet, bet.bettor) is None {
            let amount = payout_amount(market, bet);
            amount + total_paid(market_after_claim(market, amount), bets.drop_first())
        } else {
            total_paid(market, bets.drop_first())
        }
    }
}

/// The sum refunded when each position in `bets` is claimed by its own
/// bettor, one after the other. A claim that is rejected refunds nothing.
pub open spec fn total_refunded(market: Market, bets: Seq<UserBet>) -> nat
    decreases bets.len(),
{
    if bets.len() == 0 {
        0
    } else {
        let bet = bets.first();
        if refund_rejection(market, bet, bet.bettor) is None {
            let amount = refund_amount(market, bet);
            amount + total_refunded(market_after_claim(market, amount), bets.drop_first())
        } else {
            total_refunded(market, bets.drop_first())
        }
    }
}

/// However many positions claim a payout, and in whatever order, the sum
/// paid never exceeds what the pools held.
pub proof fn lemma_payouts_never_exceed_pools(market: Market, bets: Seq<UserBet>)
    requires
        market.total_claimed <= market.pool_total(),
    ensures
        market.total_claimed + total_paid(market, bets) <= market.pool_total(),
    decreases bets.len(),
{
    if bets.len() > 0 {
        let bet = bets.first();
        if payout_rejection(market, bet, bet.bettor) is None {
            let amount = payout_amount(market, bet);
            lemma_payouts_never_exceed_pools(market_after_claim(market, amount), bets.drop_first());
        } else {
            lemma_payouts_never_exceed_pools(market, bets.drop_first());
        }
    }
}

/// However many positions claim a refund, and in whatever order, the sum
/// refunded never exceeds what the pools held.
pub proof fn lemma_refunds_never_exceed_pools(market: Market, bets: Seq<UserBet>)
    requires
        market.total_claimed <= market.pool_total(),
    ensures
        market.total_claimed + total_refunded(market, bets) <= market.pool_total(),
    decreases bets.len(),
{
    if bets.len() > 0 {
        let bet = bets.first();
        if refund_rejection(market, bet, bet.bettor) is None {
            let amount = refund_amount(market, bet);
            lemma_refunds_never_exceed_pools(market_after_claim(market, amount), bets.drop_first());
        } else {
            lemma_refunds_never_exceed_pools(market, bets.drop_first());
        }
    }
}

/// Every position in `bets` is unclaimed and on `side`.
pub open spec fn all_unclaimed_on(side: BetSide, bets: Seq<UserBet>) -> bool {
    forall|i: int|
        0 <= i < bets.len() ==> !(#[trigger] bets[i]).claimed && bets[i].bet_side == side
}

/// Every position in `bets` is unclaimed.
pub open spec fn all_unclaimed(bets: Seq<UserBet>) -> bool {
    forall|i: int| 0 <= i < bets.len() ==> !(#[trigger] bets[i]).claimed
}

/// What the positions in `bets` put into their pool, together.
pub open spec fn total_stake(bets: Seq<UserBet>) -> nat
    decreases bets.len(),
{
    if bets.len() == 0 {
        0
    } else {
        bets.first().amount_to_pool as nat + total_stake(bets.drop_first())
    }
}

/// What the bettors of `bets` paid, together, fees included.
pub open spec fn total_wagered(bets: Seq<UserBet>) -> nat
    decreases bets.len(),
{
    if bets.len() == 0 {
        0
    } else {
        bets.first().amount as nat + total_wagered(bets.drop_first())
    }
}

/// The shares of the losing pool that the positions in `bets` earn, each
/// rounded down, together.
pub open spec fn total_share(bets: Seq<UserBet>, winning_pool: nat, losing_pool: nat) -> nat
    decreases bets.len(),
{
    if bets.len() == 0 {
        0
    } else {
        bets.first().amount_to_pool as nat * losing_pool / winning_pool + total_share(
            bets.drop_first(),
            winning_pool,
            losing_pool,
        )
    }
}

/// What rounding down takes from the positions in `bets`, together, in units
/// of one `winning_pool`-th.
pub open spec fn total_dust(bets: Seq<UserBet>, winning_pool: nat, losing_pool: nat) -> nat
    decreases bets.len(),
{
    if bets.len() == 0 {
        0
    } else {
        bets.first().amount_to_pool as nat * losing_pool % winning_pool + total_dust(
            bets.drop_first(),
            winning_pool,
            losing_pool,
        )
    }
}

/// No position in `bets` loses anything to rounding: the winning pool
/// divides each stake times the losing pool.
pub open spec fn shares_come_out_even(
    bets: Seq<UserBet>,
    winning_pool: nat,
    losing_pool: nat,
) -> bool {
    forall|i: int|
        0 <= i < bets.len() ==> (#[trigger] bets[i]).amount_to_pool as nat * losing_pool
            % winning_pool == 0
}

/// The stakes times the losing pool split into whole shares and dust.
proof fn lemma_shares_and_dust(bets: Seq<UserBet>, winning_pool: nat, losing_pool: nat)
    requires
        winning_pool > 0,
    ensures
        total_stake(bets) * losing_pool == winning_pool * total_share(
            bets,
            winning_pool,
            losing_pool,
        ) + total_dust(bets, winning_pool, losing_pool),
        total_dust(bets, winning_pool, losing_pool) <= bets.len() * (winning_pool - 1),
        shares_come_out_even(bets, winning_pool, losing_pool) <==> total_dust(
            bets,
            winning_pool,
            losing_pool,
        ) == 0,
    decreases bets.len(),
{
    if bets.len() == 0 {
        assert(total_stake(bets) * losing_pool == 0) by (nonlinear_arith)
            requires
                total_stake(bets) == 0,
        ;
        assert(winning_pool * total_share(bets, winning_pool, losing_pool) == 0)
            by (nonlinear_arith)
            requires
                total_share(bets, winning_pool, losing_pool) == 0,
        ;
    } else {
        let rest = bets.drop_first();
        lemma_shares_and_dust(rest, winning_pool, losing_pool);
        let stake = bets.first().amount_to_pool as nat;
        let product = stake * losing_pool;
        let share = product / winning_pool;
        let dust = product % winning_pool;
        assert(product == winning_pool * share + dust && dust <= winning_pool - 1)
            by (nonlinear_arith)
            requires
                winning_pool > 0,
                share == product / winning_pool,
                dust == product % winning_pool,
        ;
        let rest_stake = total_stake(rest);
        let rest_share = total_share(rest, winning_pool, losing_pool);
        let rest_dust = total_dust(rest, winning_pool, losing_pool);
        assert((stake + rest_stake) * losing_pool == winning_pool * (share + rest_share) + (dust
            + rest_dust)) by (nonlinear_arith)
            requires
                product == stake * losing_pool,
                product == winning_pool * share + dust,
                rest_stake * losing_pool == winning_pool * rest_share + rest_dust,
        ;
        assert(dust + rest_dust <= bets.len() * (winning_pool - 1)) by (nonlinear_arith)
            requires
                dust <= winning_pool - 1,
                rest_dust <= rest.len() * (winning_pool - 1),
                bets.len() == rest.len() + 1,
        ;
        if shares_come_out_even(bets, winning_pool, losing_pool) {
            assert(bets[0].amount_to_pool as nat * losing_pool % winning_pool == 0);
            assert forall|i: int| 0 <= i < rest.len() implies (#[trigger] rest[i]).amount_to_pool as nat
                * losing_pool % winning_pool == 0 by {
                assert(rest[i] == bets[i + 1]);
            }
        }
        if dust + rest_dust == 0 {
            assert forall|i: int| 0 <= i < bets.len() implies (#[trigger] bets[i]).amount_to_pool as nat
                * losing_pool % winning_pool == 0 by {
                if i > 0 {
                    assert(bets[i] == rest[i - 1]);
                }
            }
        }
    }
}

/// While the pools cover every computed payout, each claim is paid in full.
proof fn lemma_payouts_within_budget(market: Market, side: BetSide, bets: Seq<UserBet>)
    requires
        market.status == MarketStatus::Resolved,
        market.resolved_outcome == Some(side),
        market.pool_of(side) > 0,
        market.yes_pool + market.no_pool <= u64::MAX,
        all_unclaimed_on(side, bets),
        market.total_claimed + total_stake(bets) + total_share(
            bets,
            market.pool_of(side) as nat,
            market.pool_of(side.opposite()) as nat,
        ) <= market.pool_total(),
    ensures
        total_paid(market, bets) == total_stake(bets) + total_share(
            bets,
            market.pool_of(side) as nat,
            market.pool_of(side.opposite()) as nat,
        ),
    decreases bets.len(),
{
    if bets.len() > 0 {
        let bet = bets.first();
        let rest = bets.drop_first();
        assert(bet == bets[0]);
        assert(payout_rejection(market, bet, bet.bettor) is None);
        let amount = payout_amount(market, bet);
        assert(amount == calculated_payout(market, bet));
        let after = market_after_claim(market, amount);
        assert forall|i: int| 0 <= i < rest.len() implies !(#[trigger] rest[i]).claimed
            && rest[i].bet_side == side by {
            assert(rest[i] == bets[i + 1]);
        }
        lemma_payouts_within_budget(after, side, rest);
    }
}

/// Once every winner has claimed, all but the rounding dust is paid out: of
/// both pools together, less than one unit per winner is left, and nothing
/// at all exactly where no share is rounded.
///
/// `bets` are the winning positions, in the order in which they claim; their
/// stakes make up the winning pool.
pub proof fn lemma_winners_take_all_but_dust(market: Market, side: BetSide, bets: Seq<UserBet>)
    requires
        market.status == MarketStatus::Resolved,
        market.resolved_outcome == Some(side),
        market.total_claimed == 0,
        market.yes_pool + market.no_pool <= u64::MAX,
        market.pool_of(side) > 0,
        all_unclaimed_on(side, bets),
        total_stake(bets) == market.pool_of(side),
    ensures
        total_paid(market, bets) == market.pool_of(side) + total_share(
            bets,
            market.pool_of(side) as nat,
            market.pool_of(side.opposite()) as nat,
        ),
        total_paid(market, bets) <= market.pool_total(),
        market.pool_total() - total_paid(market, bets) < bets.len(),
        shares_come_out_even(
            bets,
            market.pool_of(side) as nat,
            market.pool_of(side.opposite()) as nat,
        ) <==> total_paid(market, bets) == market.pool_total(),
{
    let winning = market.pool_of(side) as nat;
    let losing = market.pool_of(side.opposite()) as nat;
    let share = total_share(bets, winning, losing);
    let dust = total_dust(bets, winning, losing);
    lemma_shares_and_dust(bets, winning, losing);
    assert(bets.len() > 0);
    let short = losing - share;
    assert(winning * short == dust) by (nonlinear_arith)
        requires
            winning * losing == winning * share + dust,
            short == losing - share,
    ;
    assert(0 <= short < bets.len() && (dust == 0 <==> short == 0)) by (nonlinear_arith)
        requires
            winning > 0,
            bets.len() > 0,
            winning * short == dust,
            0 <= dust <= bets.len() * (winning - 1),
    ;
    assert(market.pool_total() == winning + losing);
    lemma_payouts_within_budget(market, side, bets);
}

/// Once every winner has claimed, the sum paid is exactly both pools
/// together, provided that no share is rounded: the winning pool divides
/// each stake times the losing pool.
pub proof fn lemma_winners_take_all(market: Market, side: BetSide, bets: Seq<UserBet>)
    requires
        market.status == MarketStatus::Resolved,
        market.resolved_outcome == Some(side),
        market.total_claimed == 0,
        market.yes_pool + market.no_pool <= u64::MAX,
        market.pool_of(side) > 0,
        all_unclaimed_on(side, bets),
        total_stake(bets) == market.pool_of(side),
        shares_come_out_even(
            bets,
            market.pool_of(side) as nat,
            market.pool_of(side.opposite()) as nat,
        ),
    ensures
        total_paid(market, bets) == market.yes_pool + market.no_pool,
{
    lemma_winners_take_all_but_dust(market, side, bets);
}

/// While the pools cover every wager, each position of a cancelled market is
/// refunded in full, fees included.
pub proof fn lemma_refunds_in_full(market: Market, bets: Seq<UserBet>)
    requires
        market.status == MarketStatus::Cancelled,
        market.yes_pool + market.no_pool <= u64::MAX,
        all_unclaimed(bets),
        market.total_claimed + total_wagered(bets) <= market.pool_total(),
    ensures
        total_refunded(market, bets) == total_wagered(bets),
    decreases bets.len(),
{
    if bets.len() > 0 {
        let bet = bets.first();
        let rest = bets.drop_first();
        assert(bet == bets[0]);
        assert(refund_rejection(market, bet, bet.bettor) is None);
        let amount = refund_amount(market, bet);
        assert(amount == bet.amount);
        assert forall|i: int| 0 <= i < rest.len() implies !(#[trigger] rest[i]).claimed by {
            assert(rest[i] == bets[i + 1]);
        }
        lemma_refunds_in_full(market_after_claim(market, amount), rest);
    }
}

/// A position is paid at most once: however it was claimed, a payout or a
/// refund, every later claim on it is rejected, and as already claimed
/// wherever the market is in the state that the claim asks for.
pub proof fn lemma_no_second_claim(market: Market, bet: UserBet, first: Pubkey, second: Pubkey)
    ensures
        payout_rejection(market, bet, first) is None ==> {
            let after = market_after_claim(market, payout_amount(market, bet));
            &&& payout_rejection(after, claimed_bet(bet), second) == Some(
                MarketError::AlreadyClaimed,
            )
            &&& refund_rejection(after, claimed_bet(bet), second) is Some
        },
        refund_rejection(market, bet, first) is None ==> {
            let after = market_after_claim(market, refund_amount(market, bet));
            &&& refund_rejection(after, claimed_bet(bet), second) == Some(
                MarketError::AlreadyClaimed,
            )
            &&& payout_rejection(after, claimed_bet(bet), second) is Some
        },
        bet.claimed ==> payout_rejection(market, bet, second) is Some && refund_rejection(
            market,
            bet,
            second,
        ) is Some,
        bet.claimed && market.status == MarketStatus::Resolved ==> payout_rejection(
            market,
            bet,
            second,
        ) == Some(MarketError::AlreadyClaimed),
        bet.claimed && market.status == MarketStatus::Cancelled ==> refund_rejection(
            market,
            bet,
            second,
        ) == Some(MarketError::AlreadyClaimed),
{
}

/// A position on the losing side is never paid: every claim on it is
/// rejected, and as lost wherever the market is resolved, the position
/// unclaimed and the claimant its bettor.
pub proof fn lemma_losers_are_never_paid(market: Market, bet: UserBet, claimant: Pubkey)
    requires
        market.resolved_outcome != Some(bet.bet_side),
    ensures
        payout_rejection(market, bet, claimant) is Some,
        market.status == MarketStatus::Resolved && !bet.claimed && is_same_key(
            bet.bettor,
            claimant,
        ) ==> payout_rejection(market, bet, claimant) == Some(MarketError::BetLost),
{
}

/// The payout of a claim is computed in arithmetic wide enough for any
/// stake and any pools: no claim is ever rejected for an overflow of the
/// computation.
pub proof fn lemma_payout_computation_never_overflows(
    market: Market,
    bet: UserBet,
    claimant: Pubkey,
)
    ensures
        payout_rejection(market, bet, claimant) != Some(MarketError::PayoutCalculationOverflow),
        refund_rejection(market, bet, claimant) != Some(MarketError::PayoutCalculationOverflow),
        market.pool_of(bet.bet_side) > 0 ==> calculated_payout(market, bet) <= u128::MAX,
{
    if market.pool_of(bet.bet_side) > 0 {
        lemma_payout_fits(
            bet.amount_to_pool,
            market.pool_of(bet.bet_side),
            market.pool_of(bet.bet_side.opposite()),
        );
    }
}

/// A market that has been resolved or cancelled stays so: it takes no more
/// wagers and can be neither resolved nor cancelled again, and claims leave
/// its status and its pools alone.
pub proof fn lemma_final_states_are_final(
    market: Market,
    params: GlobalParameters,
    authority: Pubkey,
    platform_wallet: Pubkey,
    creator_wallet: Pubkey,
    bet_side: BetSide,
    amount: u64,
    now: i64,
    paid: nat,
)
    requires
        market.status != MarketStatus::Active,
    ensures
        bet_rejection(market, params, bet_side, amount, now) == Some(MarketError::MarketNotActive),
        resolution_rejection(market, params, authority, platform_wallet, creator_wallet, now)
            is Some,
        cancellation_rejection(market, params, authority, now) is Some,
        market_after_claim(market, paid).status == market.status,
        market_after_claim(market, paid).resolved_outcome == market.resolved_outcome,
        market_after_claim(market, paid).yes_pool == market.yes_pool,
        market_after_claim(market, paid).no_pool == market.no_pool,
{
}

} // verus!
