use anchor_lang::prelude::Pubkey;
use zmart::errors::MarketError;
use zmart::events::{PayoutClaimedEvent, RefundClaimedEvent};
use zmart::market::{BetSide, Market, MarketStatus, UserBet};
use zmart::parameters::GlobalParameters;
use zmart::payout::{claim_payout, claim_refund, Payout};
use zmart::settlement::{cancel_market, resolve_market};
use zmart::wager::{create_market, place_bet};

const CREATOR: u8 = 1;
const PLATFORM: u8 = 9;

fn key(n: u8) -> Pubkey {
    Pubkey::new_from_array([n; 32])
}

fn params(platform_fee_bps: u16, creator_fee_bps: u16) -> GlobalParameters {
    GlobalParameters {
        authority: key(PLATFORM),
        creation_bond_lamports: 100_000_000,
        platform_fee_bps,
        creator_fee_bps,
        min_bet_lamports: 1,
        max_bet_lamports: u64::MAX,
        max_market_size_lamports: 1_000_000_000_000,
        min_duration_seconds: 3600,
        max_duration_seconds: 31_536_000,
        dispute_window_seconds: 172_800,
        bond_tier_1_lamports: 100_000_000,
        bond_tier_2_lamports: 500_000_000,
        bond_tier_3_lamports: 1_000_000_000,
        stale_market_threshold_days: 30,
        voting_weight_mode: 0,
        approved_refund_bps: 10000,
        rejected_refund_bps: 5000,
        cancelled_refund_bps: 10000,
        update_cooldown_seconds: 86_400,
        max_change_bps: 2000,
        last_updated: 0,
        cooldown_until: 0,
        version: 1,
        bump: 255,
    }
}

fn open_market() -> Market {
    create_market(7, key(CREATOR), String::from("t"), String::from("d"), 1_000, 10, 0).unwrap().0
}

/// Places the wagers `(bettor, side, amount)` under the given rates.
fn wager_all(market: &mut Market, config: &GlobalParameters, wagers: &[(u8, BetSide, u64)]) -> Vec<UserBet> {
    let mut bets = Vec::new();
    for (bettor, side, amount) in wagers {
        let (bet, _) = place_bet(market, config, key(*bettor), *side, *amount, 20, 0).unwrap();
        bets.push(bet);
    }
    bets
}

fn resolve(market: &mut Market, outcome: BetSide) {
    resolve_market(market, &params(0, 0), key(CREATOR), key(PLATFORM), key(CREATOR), outcome, 1_000).unwrap();
}

fn cancel(market: &mut Market) {
    cancel_market(market, &params(0, 0), key(PLATFORM), 1_000).unwrap();
}

#[test]
fn the_sole_winner_takes_both_pools() {
    let mut market = open_market();
    let config = params(200, 100);
    let mut bets = wager_all(&mut market, &config, &[(2, BetSide::Yes, 1000), (3, BetSide::No, 1000)]);
    assert_eq!(bets[0].amount_to_pool, 970);
    assert_eq!(bets[1].amount_to_pool, 970);
    assert_eq!(bets[0].platform_fee + bets[0].creator_fee, 30);
    assert_eq!(bets[1].platform_fee + bets[1].creator_fee, 30);
    assert_eq!((bets[0].platform_fee, bets[0].creator_fee), (20, 10));
    resolve(&mut market, BetSide::Yes);
    let payout = claim_payout(&mut market, &mut bets[0], key(2), 1_001).unwrap();
    assert_eq!(
        payout,
        Payout {
            calculated_payout: 1940,
            remaining_pool: 1940,
            event: PayoutClaimedEvent { market_id: 7, bettor: key(2), amount: 1940, timestamp: 1_001 },
        }
    );
    assert_eq!(market.total_claimed, 1940);
    assert!(bets[0].claimed);
    // the pools themselves are not debited
    assert_eq!(market.yes_pool, 970);
    assert_eq!(market.no_pool, 970);
}

#[test]
fn a_tiny_winning_pool_takes_a_huge_losing_pool() {
    let mut market = open_market();
    let config = params(0, 0);
    let mut bets = wager_all(&mut market, &config, &[(2, BetSide::Yes, 1), (3, BetSide::No, 1_000_000)]);
    resolve(&mut market, BetSide::Yes);
    let payout = claim_payout(&mut market, &mut bets[0], key(2), 1_001).unwrap();
    assert_eq!(payout.calculated_payout, 1_000_001);
    assert_eq!(payout.event.amount, 1_000_001);
    assert_eq!(market.total_claimed, 1_000_001);
}

#[test]
fn the_payout_is_computed_beyond_64_bits() {
    // stake * losing pool = 2^63 * (2^63 - 1) does not fit 64 bits
    let stake = 1u64 << 63;
    let losing = (1u64 << 63) - 1;
    let mut market = open_market();
    let config = params(0, 0);
    let mut bets = wager_all(&mut market, &config, &[(2, BetSide::No, stake)]);
    market.yes_pool = losing;
    market.total_volume = u64::MAX;
    resolve(&mut market, BetSide::No);
    let payout = claim_payout(&mut market, &mut bets[0], key(2), 1_001).unwrap();
    assert_eq!(payout.calculated_payout, u64::MAX as u128);
    assert_eq!(payout.event.amount, u64::MAX);
    assert_eq!(market.total_claimed, u64::MAX);
}

#[test]
fn a_computed_payout_beyond_64_bits_is_capped_not_truncated() {
    // a position that claims more stake than its pool holds
    let mut market = open_market();
    market.yes_pool = 1;
    market.no_pool = u64::MAX - 1;
    market.total_volume = u64::MAX;
    resolve(&mut market, BetSide::Yes);
    let mut bet = UserBet {
        market_id: 7,
        bettor: key(2),
        bet_side: BetSide::Yes,
        amount: u64::MAX,
        amount_to_pool: u64::MAX,
        platform_fee: 0,
        creator_fee: 0,
        timestamp: 20,
        claimed: false,
        odds_at_bet: 5000,
        bump: 0,
    };
    let payout = claim_payout(&mut market, &mut bet, key(2), 1_001).unwrap();
    // u64::MAX + u64::MAX * (u64::MAX - 1)
    assert_eq!(payout.calculated_payout, (u64::MAX as u128) * (u64::MAX as u128));
    assert_eq!(payout.remaining_pool, u64::MAX);
    assert_eq!(payout.event.amount, u64::MAX);
}

#[test]
fn winners_share_the_losing_pool_by_stake() {
    let mut market = open_market();
    let config = params(0, 0);
    let mut bets = wager_all(
        &mut market,
        &config,
        &[(2, BetSide::Yes, 100), (3, BetSide::Yes, 300), (4, BetSide::No, 200)],
    );
    resolve(&mut market, BetSide::Yes);
    // 300 + 300 * 200 / 400
    let second = claim_payout(&mut market, &mut bets[1], key(3), 1_001).unwrap();
    assert_eq!(second.event.amount, 450);
    assert_eq!(second.remaining_pool, 600);
    // 100 + 100 * 200 / 400
    let first = claim_payout(&mut market, &mut bets[0], key(2), 1_002).unwrap();
    assert_eq!(first.event.amount, 150);
    assert_eq!(first.remaining_pool, 150);
    assert_eq!(market.total_claimed, 600);
    assert_eq!(market.total_claimed, market.yes_pool + market.no_pool);
}

#[test]
fn rounding_leaves_dust_in_the_pools() {
    let mut market = open_market();
    let config = params(0, 0);
    let mut bets = wager_all(
        &mut market,
        &config,
        &[(2, BetSide::Yes, 1), (3, BetSide::Yes, 1), (4, BetSide::Yes, 1), (5, BetSide::No, 1)],
    );
    resolve(&mut market, BetSide::Yes);
    let mut paid = 0;
    for (index, bettor) in [2u8, 3, 4].iter().enumerate() {
        // 1 + 1 * 1 / 3
        let payout = claim_payout(&mut market, &mut bets[index], key(*bettor), 1_001).unwrap();
        assert_eq!(payout.event.amount, 1);
        paid += payout.event.amount;
    }
    assert_eq!(paid, 3);
    assert_eq!(market.total_claimed, 3);
    assert!(paid <= market.yes_pool + market.no_pool);
    assert!(market.yes_pool + market.no_pool - paid < 3);
}

#[test]
fn payouts_never_exceed_the_pools() {
    let mut market = open_market();
    let config = params(150, 50);
    let wagers = [
        (2, BetSide::Yes, 333),
        (3, BetSide::No, 1_000),
        (4, BetSide::Yes, 77),
        (5, BetSide::Yes, 5_001),
        (6, BetSide::No, 9),
    ];
    let mut bets = wager_all(&mut market, &config, &wagers);
    resolve(&mut market, BetSide::Yes);
    let pools = market.yes_pool + market.no_pool;
    let mut paid = 0;
    for index in [3usize, 0, 2] {
        let bettor = bets[index].bettor;
        let payout = claim_payout(&mut market, &mut bets[index], bettor, 1_001).unwrap();
        paid += payout.event.amount;
        assert_eq!(market.total_claimed, paid);
        assert!(paid <= pools);
    }
    assert!(pools - paid < 3);
}

#[test]
fn a_payout_is_capped_by_what_the_pools_still_hold() {
    let mut market = open_market();
    let config = params(0, 0);
    let mut bets = wager_all(&mut market, &config, &[(2, BetSide::Yes, 100), (3, BetSide::No, 100)]);
    resolve(&mut market, BetSide::Yes);
    market.total_claimed = 150;
    let payout = claim_payout(&mut market, &mut bets[0], key(2), 1_001).unwrap();
    assert_eq!(payout.calculated_payout, 200);
    assert_eq!(payout.remaining_pool, 50);
    assert_eq!(payout.event.amount, 50);
    assert_eq!(market.total_claimed, 200);
}

#[test]
fn a_payout_from_exhausted_pools_is_nothing() {
    let mut market = open_market();
    let config = params(0, 0);
    let mut bets = wager_all(&mut market, &config, &[(2, BetSide::Yes, 100), (3, BetSide::No, 100)]);
    resolve(&mut market, BetSide::Yes);
    market.total_claimed = 200;
    let payout = claim_payout(&mut market, &mut bets[0], key(2), 1_001).unwrap();
    assert_eq!(payout.event.amount, 0);
    assert_eq!(market.total_claimed, 200);
    assert!(bets[0].claimed);
}

#[test]
fn a_position_is_paid_only_once() {
    let mut market = open_market();
    let config = params(200, 100);
    let mut bets = wager_all(&mut market, &config, &[(2, BetSide::Yes, 1000), (3, BetSide::No, 1000)]);
    resolve(&mut market, BetSide::Yes);
    claim_payout(&mut market, &mut bets[0], key(2), 1_001).unwrap();
    let market_before = market.clone();
    let bet_before = bets[0];
    let again = claim_payout(&mut market, &mut bets[0], key(2), 1_002);
    assert_eq!(again.unwrap_err(), MarketError::AlreadyClaimed);
    assert_eq!(market, market_before);
    assert_eq!(bets[0], bet_before);
    let refund = claim_refund(&mut market, &mut bets[0], key(2), 1_002);
    assert_eq!(refund.unwrap_err(), MarketError::MarketNotCancelled);
    assert_eq!(market, market_before);
}

#[test]
fn a_losing_position_is_not_paid() {
    let mut market = open_market();
    let config = params(200, 100);
    let mut bets = wager_all(&mut market, &config, &[(2, BetSide::Yes, 1000), (3, BetSide::No, 1000)]);
    resolve(&mut market, BetSide::Yes);
    let market_before = market.clone();
    let bet_before = bets[1];
    let lost = claim_payout(&mut market, &mut bets[1], key(3), 1_001);
    assert_eq!(lost.unwrap_err(), MarketError::BetLost);
    assert_eq!(market, market_before);
    assert_eq!(bets[1], bet_before);
    assert!(!bets[1].claimed);
    assert_eq!(market.total_claimed, 0);
}

#[test]
fn a_payout_needs_a_resolved_market() {
    let mut market = open_market();
    let config = params(200, 100);
    let mut bets = wager_all(&mut market, &config, &[(2, BetSide::Yes, 1000)]);
    let before = market.clone();
    let got = claim_payout(&mut market, &mut bets[0], key(2), 30);
    assert_eq!(got.unwrap_err(), MarketError::MarketNotResolved);
    assert_eq!(market, before);
    cancel(&mut market);
    let got = claim_payout(&mut market, &mut bets[0], key(2), 1_001);
    assert_eq!(got.unwrap_err(), MarketError::MarketNotResolved);
    assert!(!bets[0].claimed);
}

#[test]
fn only_the_bettor_claims_the_payout() {
    let mut market = open_market();
    let config = params(200, 100);
    let mut bets = wager_all(&mut market, &config, &[(2, BetSide::Yes, 1000), (3, BetSide::No, 1000)]);
    resolve(&mut market, BetSide::Yes);
    let before = market.clone();
    let got = claim_payout(&mut market, &mut bets[0], key(3), 1_001);
    assert_eq!(got.unwrap_err(), MarketError::Unauthorized);
    assert_eq!(market, before);
    assert!(!bets[0].claimed);
    assert!(claim_payout(&mut market, &mut bets[0], key(2), 1_001).is_ok());
}

#[test]
fn the_checks_on_a_payout_come_in_order() {
    let mut market = open_market();
    let config = params(0, 0);
    let mut bets = wager_all(&mut market, &config, &[(2, BetSide::Yes, 1000), (3, BetSide::No, 1000)]);
    // claimed, claimed by a stranger, on the losing side: all at once
    bets[1].claimed = true;
    let got = claim_payout(&mut market, &mut bets[1], key(5), 1_001);
    assert_eq!(got.unwrap_err(), MarketError::MarketNotResolved);
    resolve(&mut market, BetSide::Yes);
    let got = claim_payout(&mut market, &mut bets[1], key(5), 1_001);
    assert_eq!(got.unwrap_err(), MarketError::AlreadyClaimed);
    bets[1].claimed = false;
    let got = claim_payout(&mut market, &mut bets[1], key(5), 1_001);
    assert_eq!(got.unwrap_err(), MarketError::Unauthorized);
    let got = claim_payout(&mut market, &mut bets[1], key(3), 1_001);
    assert_eq!(got.unwrap_err(), MarketError::BetLost);
}

#[test]
fn an_empty_winning_pool_pays_nobody() {
    let mut market = open_market();
    let config = params(0, 0);
    wager_all(&mut market, &config, &[(3, BetSide::No, 1000)]);
    resolve(&mut market, BetSide::Yes);
    // a position whose whole wager went to fees holds no stake in the pool
    let mut bet = UserBet {
        market_id: 7,
        bettor: key(2),
        bet_side: BetSide::Yes,
        amount: 10,
        amount_to_pool: 0,
        platform_fee: 10,
        creator_fee: 0,
        timestamp: 20,
        claimed: false,
        odds_at_bet: 0,
        bump: 0,
    };
    let before = market.clone();
    let got = claim_payout(&mut market, &mut bet, key(2), 1_001);
    assert_eq!(got.unwrap_err(), MarketError::NoWinnersCannotClaim);
    assert_eq!(market, before);
    assert!(!bet.claimed);
}

#[test]
fn pools_too_large_to_add_up_pay_nobody() {
    let mut market = open_market();
    let config = params(0, 0);
    let mut bets = wager_all(&mut market, &config, &[(2, BetSide::Yes, 1000)]);
    market.no_pool = u64::MAX;
    resolve(&mut market, BetSide::Yes);
    let before = market.clone();
    let got = claim_payout(&mut market, &mut bets[0], key(2), 1_001);
    assert_eq!(got.unwrap_err(), MarketError::PoolOverflow);
    assert_eq!(market, before);
    cancel_and_expect_pool_overflow(bets[0]);
}

fn cancel_and_expect_pool_overflow(mut bet: UserBet) {
    let mut market = open_market();
    market.yes_pool = 1;
    market.no_pool = u64::MAX;
    cancel(&mut market);
    let before = market.clone();
    let got = claim_refund(&mut market, &mut bet, key(2), 1_001);
    assert_eq!(got.unwrap_err(), MarketError::PoolOverflow);
    assert_eq!(market, before);
}

#[test]
fn more_claimed_than_the_pools_hold_stops_every_claim() {
    let mut market = open_market();
    let config = params(0, 0);
    let mut bets = wager_all(&mut market, &config, &[(2, BetSide::Yes, 1000), (3, BetSide::No, 500)]);
    resolve(&mut market, BetSide::Yes);
    market.total_claimed = 1_501;
    let before = market.clone();
    let got = claim_payout(&mut market, &mut bets[0], key(2), 1_001);
    assert_eq!(got.unwrap_err(), MarketError::TotalClaimedOverflow);
    assert_eq!(market, before);
    assert!(!bets[0].claimed);

    market.status = MarketStatus::Cancelled;
    market.resolved_outcome = None;
    let before = market.clone();
    let got = claim_refund(&mut market, &mut bets[0], key(2), 1_001);
    assert_eq!(got.unwrap_err(), MarketError::TotalClaimedOverflow);
    assert_eq!(market, before);
}

#[test]
fn a_cancelled_market_refunds_every_wager_in_full() {
    let mut market = open_market();
    let config = params(0, 0);
    let wagers = [(2, BetSide::Yes, 100), (3, BetSide::No, 200), (4, BetSide::Yes, 300)];
    let mut bets = wager_all(&mut market, &config, &wagers);
    cancel(&mut market);
    let mut refunds = Vec::new();
    for (index, (bettor, _, _)) in wagers.iter().enumerate() {
        let event = claim_refund(&mut market, &mut bets[index], key(*bettor), 1_001).unwrap();
        assert_eq!(event.bettor, key(*bettor));
        assert!(bets[index].claimed);
        refunds.push(event.amount);
    }
    assert_eq!(refunds, vec![100, 200, 300]);
    assert_eq!(market.total_claimed, 600);
}

#[test]
fn a_refund_returns_the_fees_too() {
    let mut market = open_market();
    let config = params(200, 100);
    let mut bets = wager_all(&mut market, &config, &[(2, BetSide::Yes, 1000), (3, BetSide::No, 1000)]);
    assert_eq!(bets[0].amount_to_pool, 970);
    cancel(&mut market);
    let event = claim_refund(&mut market, &mut bets[0], key(2), 1_001).unwrap();
    assert_eq!(event, RefundClaimedEvent { market_id: 7, bettor: key(2), amount: 1000, timestamp: 1_001 });
    assert_eq!(market.total_claimed, 1000);
}

#[test]
fn a_refund_is_capped_by_what_the_pools_still_hold() {
    let mut market = open_market();
    let config = params(200, 100);
    let wagers = [(2, BetSide::Yes, 100), (3, BetSide::No, 200), (4, BetSide::Yes, 300)];
    let mut bets = wager_all(&mut market, &config, &wagers);
    // 97 + 194 + 291 entered the pools
    assert_eq!(market.yes_pool + market.no_pool, 582);
    cancel(&mut market);
    assert_eq!(claim_refund(&mut market, &mut bets[0], key(2), 1_001).unwrap().amount, 100);
    assert_eq!(claim_refund(&mut market, &mut bets[1], key(3), 1_001).unwrap().amount, 200);
    assert_eq!(claim_refund(&mut market, &mut bets[2], key(4), 1_001).unwrap().amount, 282);
    assert_eq!(market.total_claimed, 582);
    assert_eq!(market.total_claimed, market.yes_pool + market.no_pool);
}

#[test]
fn a_position_is_refunded_only_once() {
    let mut market = open_market();
    let config = params(0, 0);
    let mut bets = wager_all(&mut market, &config, &[(2, BetSide::Yes, 100), (3, BetSide::No, 200)]);
    cancel(&mut market);
    claim_refund(&mut market, &mut bets[0], key(2), 1_001).unwrap();
    let market_before = market.clone();
    let bet_before = bets[0];
    let again = claim_refund(&mut market, &mut bets[0], key(2), 1_002);
    assert_eq!(again.unwrap_err(), MarketError::AlreadyClaimed);
    assert_eq!(market, market_before);
    assert_eq!(bets[0], bet_before);
    assert_eq!(market.total_claimed, 100);
}

#[test]
fn a_refund_needs_a_cancelled_market() {
    let mut market = open_market();
    let config = params(0, 0);
    let mut bets = wager_all(&mut market, &config, &[(2, BetSide::Yes, 100), (3, BetSide::No, 200)]);
    let got = claim_refund(&mut market, &mut bets[0], key(2), 30);
    assert_eq!(got.unwrap_err(), MarketError::MarketNotCancelled);
    resolve(&mut market, BetSide::No);
    let before = market.clone();
    let got = claim_refund(&mut market, &mut bets[0], key(2), 1_001);
    assert_eq!(got.unwrap_err(), MarketError::MarketNotCancelled);
    assert_eq!(market, before);
    assert!(!bets[0].claimed);
}

#[test]
fn only_the_bettor_claims_the_refund() {
    let mut market = open_market();
    let config = params(0, 0);
    let mut bets = wager_all(&mut market, &config, &[(2, BetSide::Yes, 100)]);
    cancel(&mut market);
    let before = market.clone();
    let got = claim_refund(&mut market, &mut bets[0], key(3), 1_001);
    assert_eq!(got.unwrap_err(), MarketError::Unauthorized);
    assert_eq!(market, before);
    assert!(!bets[0].claimed);
    // claimed comes before the claimant
    bets[0].claimed = true;
    let got = claim_refund(&mut market, &mut bets[0], key(3), 1_001);
    assert_eq!(got.unwrap_err(), MarketError::AlreadyClaimed);
}
