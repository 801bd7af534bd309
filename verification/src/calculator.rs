//! The two pure calculators: the fee split of a wager and the implied odds of
//! a pair of pools. Both work in basis points (10000 = 100%) and do their
//! arithmetic in 128 bits, so that no amount is too large for them.

use crate::errors::MarketError;
use vstd::prelude::*;

verus! {

/// Basis points in the whole.
pub const BPS_DENOMINATOR: u64 = 10000;

/// The odds reported while both pools are empty: an even chance.
pub const DEFAULT_ODDS_BPS: u16 = 5000;

/// A wager taken apart: what enters the pool and what each fee takes.
#[derive(Clone, Copy, Debug, PartialEq, Eq, Structural)]
pub struct FeeSplit {
    pub pool_amount: u64,
    pub platform_fee: u64,
    pub creator_fee: u64,
}

/// The fee on `amount` at `bps` basis points, rounded down.
pub open spec fn fee_of(amount: nat, bps: nat) -> nat {
    amount * bps / 10000
}

/// The two rates together take no more than the whole wager.
pub open spec fn fee_rates_valid(platform_fee_bps: u16, creator_fee_bps: u16) -> bool {
    platform_fee_bps + creator_fee_bps <= 10000
}

/// The two fees on `amount` together are no more than `amount`, so that a
/// rest is left for the pool. Under valid rates they always are.
pub open spec fn fees_fit(amount: u64, platform_fee_bps: u16, creator_fee_bps: u16) -> bool {
    fee_of(amount as nat, platform_fee_bps as nat) + fee_of(amount as nat, creator_fee_bps as nat)
        <= amount
}

/// What is left of `amount` for the pool once both fees are taken.
pub open spec fn pool_share_of(amount: nat, platform_fee_bps: nat, creator_fee_bps: nat) -> int {
    amount - fee_of(amount, platform_fee_bps) - fee_of(amount, creator_fee_bps)
}

/// The split of `amount` under the two rates, where the fees leave a rest.
pub open spec fn split_of(amount: u64, platform_fee_bps: u16, creator_fee_bps: u16) -> FeeSplit
    recommends
        fees_fit(amount, platform_fee_bps, creator_fee_bps),
{
    FeeSplit {
        pool_amount: pool_share_of(
            amount as nat,
            platform_fee_bps as nat,
            creator_fee_bps as nat,
        ) as u64,
        platform_fee: fee_of(amount as nat, platform_fee_bps as nat) as u64,
        creator_fee: fee_of(amount as nat, creator_fee_bps as nat) as u64,
    }
}

/// The implied probability of "yes" in basis points: the yes pool's share of
/// both pools, rounded down, and an even chance while both are empty.
pub open spec fn odds_of(yes_pool: nat, no_pool: nat) -> nat {
    if yes_pool + no_pool == 0 {
        5000
    } else {
        yes_pool * 10000 / (yes_pool + no_pool)
    }
}

/// A fee never exceeds the amount it is taken from, and two fees whose rates
/// are valid together leave a non-negative rest.
pub proof fn lemma_fees_fit(amount: nat, platform_fee_bps: nat, creator_fee_bps: nat)
    requires
        platform_fee_bps + creator_fee_bps <= 10000,
    ensures
        fee_of(amount, platform_fee_bps) <= amount,
        fee_of(amount, creator_fee_bps) <= amount,
        fee_of(amount, platform_fee_bps) + fee_of(amount, creator_fee_bps) <= amount,
        0 <= pool_share_of(amount, platform_fee_bps, creator_fee_bps) <= amount,
{
    let p = amount * platform_fee_bps;
    let c = amount * creator_fee_bps;
    assert(p + c == amount * (platform_fee_bps + creator_fee_bps)) by (nonlinear_arith)
        requires
            p == amount * platform_fee_bps,
            c == amount * creator_fee_bps,
    ;
    assert(p + c <= amount * 10000) by (nonlinear_arith)
        requires
            p + c == amount * (platform_fee_bps + creator_fee_bps),
            platform_fee_bps + creator_fee_bps <= 10000,
    ;
    assert(p / 10000 + c / 10000 <= amount) by (nonlinear_arith)
        requires
            p + c <= amount * 10000,
            p >= 0,
            c >= 0,
    ;
}

/// The odds are a number of basis points: never more than 10000.
pub proof fn lemma_odds_bounded(yes_pool: nat, no_pool: nat)
    ensures
        odds_of(yes_pool, no_pool) <= 10000,
{
    if yes_pool + no_pool > 0 {
        assert(yes_pool * 10000 / (yes_pool + no_pool) <= 10000) by (nonlinear_arith)
            requires
                yes_pool + no_pool > 0,
                yes_pool >= 0,
                no_pool >= 0,
        ;
    }
}

/// Valid rates leave a rest of every amount.
pub proof fn lemma_valid_rates_fit(amount: u64, platform_fee_bps: u16, creator_fee_bps: u16)
    requires
        fee_rates_valid(platform_fee_bps, creator_fee_bps),
    ensures
        fees_fit(amount, platform_fee_bps, creator_fee_bps),
{
    lemma_fees_fit(amount as nat, platform_fee_bps as nat, creator_fee_bps as nat);
}

/// The products that the fees are computed from stay within 128 bits.
proof fn lemma_fee_product_fits(amount: u64, bps: u16)
    ensures
        amount as nat * bps as nat <= 0xffff_ffff_ffff_ffff * 0xffff,
        fee_of(amount as nat, bps as nat) <= 0xffff_ffff_ffff_ffff * 0xffff,
{
    assert(amount as nat * bps as nat <= 0xffff_ffff_ffff_ffff * 0xffff) by (nonlinear_arith)
        requires
            amount <= 0xffff_ffff_ffff_ffff,
            bps <= 0xffff,
    ;
}

/// Tells whether the two fees on `amount` leave a rest for the pool.
pub fn fees_leave_rest(amount: u64, platform_fee_bps: u16, creator_fee_bps: u16) -> (fit: bool)
    ensures
        fit == fees_fit(amount, platform_fee_bps, creator_fee_bps),
{
    proof {
        lemma_fee_product_fits(amount, platform_fee_bps);
        lemma_fee_product_fits(amount, creator_fee_bps);
    }
    let wide: u128 = amount as u128;
    let platform_fee: u128 = wide * (platform_fee_bps as u128) / (BPS_DENOMINATOR as u128);
    let creator_fee: u128 = wide * (creator_fee_bps as u128) / (BPS_DENOMINATOR as u128);
    platform_fee + creator_fee <= wide
}

/// Splits a wager into the part that enters the pool and the two fees.
///
/// Each fee is the amount times its rate over 10000, rounded down; the pool
/// receives the rest, so the three parts add up to the wager exactly. A wager
/// of nothing is rejected. The fees must leave a rest, as they do under
/// valid rates.
pub fn calculate_fees(amount: u64, platform_fee_bps: u16, creator_fee_bps: u16) -> (split: Result<
    FeeSplit,
    MarketError,
>)
    requires
        fees_fit(amount, platform_fee_bps, creator_fee_bps),
    ensures
        amount == 0 ==> split == Err::<FeeSplit, MarketError>(MarketError::InvalidAmount),
        amount > 0 ==> split == Ok::<FeeSplit, MarketError>(
            split_of(amount, platform_fee_bps, creator_fee_bps),
        ),
        split matches Ok(s) ==> {
            &&& s.platform_fee == fee_of(amount as nat, platform_fee_bps as nat)
            &&& s.creator_fee == fee_of(amount as nat, creator_fee_bps as nat)
            &&& s.pool_amount + s.platform_fee + s.creator_fee == amount
        },
{
    if amount == 0 {
        return Err(MarketError::InvalidAmount);
    }
    proof {
        lemma_fee_product_fits(amount, platform_fee_bps);
        lemma_fee_product_fits(amount, creator_fee_bps);
    }
    let wide: u128 = amount as u128;
    let platform_fee: u128 = wide * (platform_fee_bps as u128) / (BPS_DENOMINATOR as u128);
    let creator_fee: u128 = wide * (creator_fee_bps as u128) / (BPS_DENOMINATOR as u128);
    let pool_amount: u128 = wide - platform_fee - creator_fee;
    Ok(
        FeeSplit {
            pool_amount: pool_amount as u64,
            platform_fee: platform_fee as u64,
            creator_fee: creator_fee as u64,
        },
    )
}

/// The implied probability of "yes", in basis points, for a pair of pools.
pub fn calculate_odds(yes_pool: u64, no_pool: u64) -> (odds: u16)
    ensures
        odds == odds_of(yes_pool as nat, no_pool as nat),
        odds <= 10000,
{
    proof {
        lemma_odds_bounded(yes_pool as nat, no_pool as nat);
    }
    let total: u128 = yes_pool as u128 + no_pool as u128;
    if total == 0 {
        return DEFAULT_ODDS_BPS;
    }
    let odds: u128 = (yes_pool as u128) * (BPS_DENOMINATOR as u128) / total;
    odds as u16
}

} // verus!
