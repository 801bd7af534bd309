use anchor_lang::prelude::Pubkey;
use zmart::calculator::FeeSplit;
use zmart::errors::MarketError;
use zmart::market::{BetSide, Market, MarketStatus};
use zmart::parameters::GlobalParameters;
use zmart::wager::{create_market, place_bet, validate_bet};

fn key(n: u8) -> Pubkey {
    Pubkey::new_from_array([n; 32])
}

fn params(platform_fee_bps: u16, creator_fee_bps: u16, min_bet: u64, max_bet: u64) -> GlobalParameters {
    GlobalParameters {
        authority: key(9),
        creation_bond_lamports: 100_000_000,
        platform_fee_bps,
        creator_fee_bps,
        min_bet_lamports: min_bet,
        max_bet_lamports: max_bet,
        max_market_size_lamports: 1_000_000_000_000,
        min_duration_seconds: 3600,
        max_duration_seconds: 31_536_000,
        dispute_window_seconds: 172_800,
        bond_tier_1_lamports: 100_000_000,
        bond_tier_2_lamports: 500_000_000,
        bond_tier_3_lamports: 1_000_000_000,
        stale_market_threshold_days: 30,
        voting_weight_mode: 0,
        approved_refund_bps: 10000,
        rejected_refund_bps: 5000,
        cancelled_refund_bps: 10000,
        update_cooldown_seconds: 86_400,
        max_change_bps: 2000,
        last_updated: 0,
        cooldown_until: 0,
        version: 1,
        bump: 255,
    }
}

fn open_market() -> Market {
    let (market, _) = create_market(
        7,
        key(1),
        String::from("Will it rain tomorrow?"),
        String::from("Resolves yes if any rain is measured."),
        1_000,
        10,
        254,
    )
    .unwrap();
    market
}

#[test]
fn a_new_market_is_active_and_empty() {
    let (market, event) = create_market(
        7,
        key(1),
        String::from("Will it rain tomorrow?"),
        String::from("Resolves yes if any rain is measured."),
        1_000,
        10,
        254,
    )
    .unwrap();
    assert_eq!(market.market_id, 7);
    assert_eq!(market.creator, key(1));
    assert_eq!(market.title, "Will it rain tomorrow?");
    assert_eq!(market.description, "Resolves yes if any rain is measured.");
    assert_eq!(market.end_date, 1_000);
    assert_eq!(market.yes_pool, 0);
    assert_eq!(market.no_pool, 0);
    assert_eq!(market.total_volume, 0);
    assert_eq!(market.total_platform_fees, 0);
    assert_eq!(market.total_creator_fees, 0);
    assert_eq!(market.total_claimed, 0);
    assert_eq!(market.status, MarketStatus::Active);
    assert_eq!(market.resolved_outcome, None);
    assert_eq!(market.created_at, 10);
    assert_eq!(market.total_bets, 0);
    assert_eq!(market.unique_bettors, 0);
    assert_eq!(market.bump, 254);
    assert_eq!(event.market_id, 7);
    assert_eq!(event.creator, key(1));
    assert_eq!(event.title, "Will it rain tomorrow?");
    assert_eq!(event.end_date, 1_000);
    assert_eq!(event.timestamp, 10);
}

#[test]
fn a_market_needs_a_title_of_1_to_128_bytes() {
    let make = |title: String| create_market(1, key(1), title, String::from("d"), 100, 10, 0);
    assert_eq!(make(String::new()).unwrap_err(), MarketError::InvalidTitle);
    assert!(make("t".repeat(1)).is_ok());
    assert!(make("t".repeat(128)).is_ok());
    assert_eq!(make("t".repeat(129)).unwrap_err(), MarketError::InvalidTitle);
}

#[test]
fn a_title_is_measured_in_bytes() {
    let make = |title: String| create_market(1, key(1), title, String::from("d"), 100, 10, 0);
    // 42 three-byte characters are 126 bytes, 43 are 129
    assert!(make("\u{20ac}".repeat(42)).is_ok());
    assert_eq!(make("\u{20ac}".repeat(43)).unwrap_err(), MarketError::InvalidTitle);
}

#[test]
fn a_market_needs_a_description_of_1_to_512_bytes() {
    let make = |text: String| create_market(1, key(1), String::from("t"), text, 100, 10, 0);
    assert_eq!(make(String::new()).unwrap_err(), MarketError::InvalidDescription);
    assert!(make("d".repeat(512)).is_ok());
    assert_eq!(make("d".repeat(513)).unwrap_err(), MarketError::InvalidDescription);
}

#[test]
fn a_market_needs_an_end_date_in_the_future() {
    let make = |end: i64, now: i64| {
        create_market(1, key(1), String::from("t"), String::from("d"), end, now, 0)
    };
    assert_eq!(make(10, 10).unwrap_err(), MarketError::InvalidEndDate);
    assert_eq!(make(9, 10).unwrap_err(), MarketError::InvalidEndDate);
    assert!(make(11, 10).is_ok());
}

#[test]
fn the_title_is_checked_before_the_description_and_the_end_date() {
    let got = create_market(1, key(1), String::new(), String::new(), 0, 10, 0);
    assert_eq!(got.unwrap_err(), MarketError::InvalidTitle);
    let got = create_market(1, key(1), String::from("t"), String::new(), 0, 10, 0);
    assert_eq!(got.unwrap_err(), MarketError::InvalidDescription);
}

#[test]
fn a_wager_enters_the_ledger() {
    let mut market = open_market();
    let config = params(200, 100, 10, 1_000_000);
    let (bet, event) = place_bet(&mut market, &config, key(2), BetSide::Yes, 1000, 20, 253).unwrap();
    assert_eq!(market.yes_pool, 970);
    assert_eq!(market.no_pool, 0);
    assert_eq!(market.total_volume, 1000);
    assert_eq!(market.total_bets, 1);
    assert_eq!(market.total_platform_fees, 20);
    assert_eq!(market.total_creator_fees, 10);
    assert_eq!(market.total_claimed, 0);
    assert_eq!(market.status, MarketStatus::Active);
    assert_eq!(bet.market_id, 7);
    assert_eq!(bet.bettor, key(2));
    assert_eq!(bet.bet_side, BetSide::Yes);
    assert_eq!(bet.amount, 1000);
    assert_eq!(bet.amount_to_pool, 970);
    assert_eq!(bet.platform_fee, 20);
    assert_eq!(bet.creator_fee, 10);
    assert_eq!(bet.timestamp, 20);
    assert!(!bet.claimed);
    assert_eq!(bet.odds_at_bet, 10000);
    assert_eq!(bet.bump, 253);
    assert_eq!(event.market_id, 7);
    assert_eq!(event.bettor, key(2));
    assert_eq!(event.bet_side, BetSide::Yes);
    assert_eq!(event.amount, 1000);
    assert_eq!(event.amount_to_pool, 970);
    assert_eq!(event.platform_fee, 20);
    assert_eq!(event.creator_fee, 10);
    assert_eq!(event.yes_pool, 970);
    assert_eq!(event.no_pool, 0);
    assert_eq!(event.yes_odds, 10000);
    assert_eq!(event.timestamp, 20);
}

#[test]
fn the_odds_of_a_wager_are_those_of_the_pools_it_leaves() {
    let mut market = open_market();
    let config = params(0, 0, 1, 1_000_000);
    let (first, _) = place_bet(&mut market, &config, key(2), BetSide::No, 300, 20, 0).unwrap();
    assert_eq!(first.odds_at_bet, 0);
    let (second, _) = place_bet(&mut market, &config, key(3), BetSide::Yes, 100, 21, 0).unwrap();
    assert_eq!(second.odds_at_bet, 2500);
    let (third, event) = place_bet(&mut market, &config, key(4), BetSide::Yes, 200, 22, 0).unwrap();
    assert_eq!(third.odds_at_bet, 5000);
    assert_eq!(event.yes_pool, 300);
    assert_eq!(event.no_pool, 300);
}

#[test]
fn the_pools_hold_the_volume_less_the_fees() {
    let mut market = open_market();
    let config = params(250, 130, 1, 1_000_000);
    let wagers = [(BetSide::Yes, 999u64), (BetSide::No, 1), (BetSide::No, 123_457), (BetSide::Yes, 77)];
    for (side, amount) in wagers {
        place_bet(&mut market, &config, key(2), side, amount, 20, 0).unwrap();
        assert_eq!(
            market.yes_pool + market.no_pool,
            market.total_volume - market.total_platform_fees - market.total_creator_fees
        );
    }
    assert_eq!(market.total_volume, 999 + 1 + 123_457 + 77);
    assert_eq!(market.total_bets, 4);
    // 999: 24 + 12, 1: 0 + 0, 123457: 3086 + 1604, 77: 1 + 1
    assert_eq!(market.total_platform_fees, 24 + 3086 + 1);
    assert_eq!(market.total_creator_fees, 12 + 1604 + 1);
    assert_eq!(market.yes_pool, (999 - 36) + (77 - 2));
    assert_eq!(market.no_pool, 1 + (123_457 - 4690));
}

#[test]
fn every_wager_is_the_sum_of_its_parts() {
    let mut market = open_market();
    let config = params(333, 77, 1, u64::MAX);
    for amount in [1u64, 2, 29, 30, 31, 9_999, 10_000, 10_001, 1_000_000_007] {
        let (bet, _) = place_bet(&mut market, &config, key(2), BetSide::Yes, amount, 20, 0).unwrap();
        assert_eq!(bet.amount, bet.amount_to_pool + bet.platform_fee + bet.creator_fee);
        assert_eq!(bet.amount, amount);
    }
}

#[test]
fn the_rates_are_read_anew_for_each_wager() {
    let mut market = open_market();
    let (first, _) =
        place_bet(&mut market, &params(200, 100, 1, 10_000), key(2), BetSide::Yes, 1000, 20, 0).unwrap();
    let (second, _) =
        place_bet(&mut market, &params(500, 0, 1, 10_000), key(2), BetSide::Yes, 1000, 21, 0).unwrap();
    assert_eq!((first.platform_fee, first.creator_fee), (20, 10));
    assert_eq!((second.platform_fee, second.creator_fee), (50, 0));
    assert_eq!(market.yes_pool, 970 + 950);
    assert_eq!(market.total_platform_fees, 70);
    assert_eq!(market.total_creator_fees, 10);
}

#[test]
fn a_wager_on_a_market_that_is_not_active_is_rejected() {
    let config = params(200, 100, 10, 1_000_000);
    for status in [MarketStatus::Resolved, MarketStatus::Cancelled] {
        let mut market = open_market();
        market.status = status;
        let before = market.clone();
        let got = place_bet(&mut market, &config, key(2), BetSide::Yes, 1000, 20, 0);
        assert_eq!(got.unwrap_err(), MarketError::MarketNotActive);
        assert_eq!(market, before);
    }
}

#[test]
fn a_wager_at_or_after_the_end_date_is_rejected() {
    let config = params(200, 100, 10, 1_000_000);
    let mut market = open_market();
    let before = market.clone();
    let got = place_bet(&mut market, &config, key(2), BetSide::Yes, 1000, 1_000, 0);
    assert_eq!(got.unwrap_err(), MarketError::MarketEnded);
    let got = place_bet(&mut market, &config, key(2), BetSide::Yes, 1000, 1_001, 0);
    assert_eq!(got.unwrap_err(), MarketError::MarketEnded);
    assert_eq!(market, before);
    assert!(place_bet(&mut market, &config, key(2), BetSide::Yes, 1000, 999, 0).is_ok());
}

#[test]
fn a_wager_outside_the_bounds_is_rejected() {
    let config = params(200, 100, 10, 1_000);
    let mut market = open_market();
    let before = market.clone();
    let got = place_bet(&mut market, &config, key(2), BetSide::Yes, 9, 20, 0);
    assert_eq!(got.unwrap_err(), MarketError::BetTooSmall);
    let got = place_bet(&mut market, &config, key(2), BetSide::Yes, 1_001, 20, 0);
    assert_eq!(got.unwrap_err(), MarketError::BetTooLarge);
    assert_eq!(market, before);
    assert!(place_bet(&mut market, &config, key(2), BetSide::Yes, 10, 20, 0).is_ok());
    assert!(place_bet(&mut market, &config, key(2), BetSide::Yes, 1_000, 20, 0).is_ok());
}

#[test]
fn a_wager_of_nothing_is_rejected_even_within_the_bounds() {
    let config = params(200, 100, 0, 1_000);
    let mut market = open_market();
    let before = market.clone();
    let got = place_bet(&mut market, &config, key(2), BetSide::Yes, 0, 20, 0);
    assert_eq!(got.unwrap_err(), MarketError::InvalidAmount);
    assert_eq!(market, before);
}

#[test]
fn the_checks_on_a_wager_come_in_order() {
    let config = params(200, 100, 10, 1_000);
    let mut market = open_market();
    market.status = MarketStatus::Resolved;
    // not active, ended and too small at once
    let got = place_bet(&mut market, &config, key(2), BetSide::Yes, 1, 5_000, 0);
    assert_eq!(got.unwrap_err(), MarketError::MarketNotActive);
    market.status = MarketStatus::Active;
    let got = place_bet(&mut market, &config, key(2), BetSide::Yes, 1, 5_000, 0);
    assert_eq!(got.unwrap_err(), MarketError::MarketEnded);
    // below the minimum and above the maximum at once
    let odd = params(200, 100, 10, 5);
    let got = place_bet(&mut market, &odd, key(2), BetSide::Yes, 7, 20, 0);
    assert_eq!(got.unwrap_err(), MarketError::BetTooSmall);
}

#[test]
fn a_pool_without_room_rejects_the_wager() {
    let config = params(0, 0, 1, u64::MAX);
    let mut market = open_market();
    market.no_pool = u64::MAX - 99;
    let before = market.clone();
    let got = place_bet(&mut market, &config, key(2), BetSide::No, 100, 20, 0);
    assert_eq!(got.unwrap_err(), MarketError::PoolOverflow);
    assert_eq!(market, before);
    // the other pool has room; the volume has too
    assert!(place_bet(&mut market, &config, key(2), BetSide::Yes, 100, 20, 0).is_ok());
    // and the full pool takes what just fits
    assert!(place_bet(&mut market, &config, key(2), BetSide::No, 99, 20, 0).is_ok());
    assert_eq!(market.no_pool, u64::MAX);
}

#[test]
fn a_volume_without_room_rejects_the_wager() {
    let config = params(0, 0, 1, u64::MAX);
    let mut market = open_market();
    market.total_volume = u64::MAX - 99;
    let before = market.clone();
    let got = place_bet(&mut market, &config, key(2), BetSide::No, 100, 20, 0);
    assert_eq!(got.unwrap_err(), MarketError::TotalVolumeOverflow);
    assert_eq!(market, before);
}

#[test]
fn a_full_wager_counter_rejects_the_wager() {
    let config = params(0, 0, 1, u64::MAX);
    let mut market = open_market();
    market.total_bets = u64::MAX;
    let before = market.clone();
    let got = place_bet(&mut market, &config, key(2), BetSide::No, 100, 20, 0);
    assert_eq!(got.unwrap_err(), MarketError::TotalBetsOverflow);
    assert_eq!(market, before);
}

#[test]
fn a_fee_counter_without_room_rejects_the_wager() {
    let config = params(200, 100, 1, u64::MAX);
    let mut market = open_market();
    market.total_platform_fees = u64::MAX - 19;
    let before = market.clone();
    let got = place_bet(&mut market, &config, key(2), BetSide::No, 1000, 20, 0);
    assert_eq!(got.unwrap_err(), MarketError::FeeOverflow);
    assert_eq!(market, before);
    let mut market = open_market();
    market.total_creator_fees = u64::MAX - 9;
    let before = market.clone();
    let got = place_bet(&mut market, &config, key(2), BetSide::No, 1000, 20, 0);
    assert_eq!(got.unwrap_err(), MarketError::FeeOverflow);
    assert_eq!(market, before);
}

#[test]
fn the_accumulators_are_checked_in_order() {
    let config = params(200, 100, 1, u64::MAX);
    let mut market = open_market();
    market.yes_pool = u64::MAX;
    market.total_volume = u64::MAX;
    market.total_bets = u64::MAX;
    market.total_platform_fees = u64::MAX;
    let got = place_bet(&mut market, &config, key(2), BetSide::Yes, 1000, 20, 0);
    assert_eq!(got.unwrap_err(), MarketError::PoolOverflow);
    let got = place_bet(&mut market, &config, key(2), BetSide::No, 1000, 20, 0);
    assert_eq!(got.unwrap_err(), MarketError::TotalVolumeOverflow);
    market.total_volume = 0;
    let got = place_bet(&mut market, &config, key(2), BetSide::No, 1000, 20, 0);
    assert_eq!(got.unwrap_err(), MarketError::TotalBetsOverflow);
    market.total_bets = 0;
    let got = place_bet(&mut market, &config, key(2), BetSide::No, 1000, 20, 0);
    assert_eq!(got.unwrap_err(), MarketError::FeeOverflow);
}

#[test]
fn a_wager_is_checked_and_split_before_anything_moves() {
    let market = open_market();
    let config = params(200, 100, 10, 1_000);
    assert_eq!(
        validate_bet(&market, &config, 1000, 20),
        Ok(FeeSplit { pool_amount: 970, platform_fee: 20, creator_fee: 10 })
    );
    assert_eq!(validate_bet(&market, &config, 9, 20), Err(MarketError::BetTooSmall));
    assert_eq!(validate_bet(&market, &config, 1001, 20), Err(MarketError::BetTooLarge));
    assert_eq!(validate_bet(&market, &config, 1000, 1_000), Err(MarketError::MarketEnded));
    assert_eq!(validate_bet(&market, &params(0, 0, 0, 10), 0, 20), Err(MarketError::InvalidAmount));
    let mut closed = open_market();
    closed.status = MarketStatus::Cancelled;
    assert_eq!(validate_bet(&closed, &config, 1000, 20), Err(MarketError::MarketNotActive));
    // the ledger is not consulted
    let mut full = open_market();
    full.yes_pool = u64::MAX;
    full.total_volume = u64::MAX;
    assert!(validate_bet(&full, &config, 1000, 20).is_ok());
}
