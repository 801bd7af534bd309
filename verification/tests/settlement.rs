use anchor_lang::prelude::Pubkey;
use zmart::errors::MarketError;
use zmart::events::{MarketCancelledEvent, MarketResolvedEvent};
use zmart::market::{BetSide, Market, MarketStatus};
use zmart::parameters::GlobalParameters;
use zmart::settlement::{cancel_market, resolve_market, Resolution};
use zmart::wager::{create_market, place_bet};

const CREATOR: u8 = 1;
const PLATFORM: u8 = 9;

fn key(n: u8) -> Pubkey {
    Pubkey::new_from_array([n; 32])
}

fn params(platform_fee_bps: u16, creator_fee_bps: u16) -> GlobalParameters {
    GlobalParameters {
        authority: key(PLATFORM),
        creation_bond_lamports: 100_000_000,
        platform_fee_bps,
        creator_fee_bps,
        min_bet_lamports: 1,
        max_bet_lamports: 1_000_000_000,
        max_market_size_lamports: 1_000_000_000_000,
        min_duration_seconds: 3600,
        max_duration_seconds: 31_536_000,
        dispute_window_seconds: 172_800,
        bond_tier_1_lamports: 100_000_000,
        bond_tier_2_lamports: 500_000_000,
        bond_tier_3_lamports: 1_000_000_000,
        stale_market_threshold_days: 30,
        voting_weight_mode: 0,
        approved_refund_bps: 10000,
        rejected_refund_bps: 5000,
        cancelled_refund_bps: 10000,
        update_cooldown_seconds: 86_400,
        max_change_bps: 2000,
        last_updated: 0,
        cooldown_until: 0,
        version: 1,
        bump: 255,
    }
}

/// A market that ends at 1000, with 1000 wagered on each side at 2% + 1%.
fn market_with_wagers() -> Market {
    let (mut market, _) =
        create_market(7, key(CREATOR), String::from("t"), String::from("d"), 1_000, 10, 0).unwrap();
    let config = params(200, 100);
    place_bet(&mut market, &config, key(2), BetSide::Yes, 1000, 20, 0).unwrap();
    place_bet(&mut market, &config, key(3), BetSide::No, 1000, 21, 0).unwrap();
    market
}

fn resolve(market: &mut Market, outcome: BetSide, now: i64) -> Result<Resolution, MarketError> {
    resolve_market(market, &params(200, 100), key(CREATOR), key(PLATFORM), key(CREATOR), outcome, now)
}

#[test]
fn resolution_records_the_outcome_and_hands_out_the_fees() {
    let mut market = market_with_wagers();
    let before = market.clone();
    let resolution = resolve(&mut market, BetSide::No, 1_000).unwrap();
    assert_eq!(
        resolution,
        Resolution {
            event: MarketResolvedEvent {
                market_id: 7,
                outcome: BetSide::No,
                yes_pool: 970,
                no_pool: 970,
                timestamp: 1_000,
            },
            platform_payment: Some(40),
            creator_payment: Some(20),
        }
    );
    assert_eq!(market.status, MarketStatus::Resolved);
    assert_eq!(market.resolved_outcome, Some(BetSide::No));
    // the ledger is as it was
    assert_eq!(market.yes_pool, before.yes_pool);
    assert_eq!(market.no_pool, before.no_pool);
    assert_eq!(market.total_volume, before.total_volume);
    assert_eq!(market.total_platform_fees, before.total_platform_fees);
    assert_eq!(market.total_creator_fees, before.total_creator_fees);
    assert_eq!(market.total_bets, before.total_bets);
    assert_eq!(market.total_claimed, 0);
}

#[test]
fn resolution_moves_nothing_for_an_empty_fee_counter() {
    let (mut market, _) =
        create_market(7, key(CREATOR), String::from("t"), String::from("d"), 1_000, 10, 0).unwrap();
    place_bet(&mut market, &params(200, 0), key(2), BetSide::Yes, 1000, 20, 0).unwrap();
    let resolution = resolve(&mut market, BetSide::Yes, 2_000).unwrap();
    assert_eq!(resolution.platform_payment, Some(20));
    assert_eq!(resolution.creator_payment, None);

    let (mut untouched, _) =
        create_market(8, key(CREATOR), String::from("t"), String::from("d"), 1_000, 10, 0).unwrap();
    let resolution = resolve(&mut untouched, BetSide::Yes, 2_000).unwrap();
    assert_eq!(resolution.platform_payment, None);
    assert_eq!(resolution.creator_payment, None);
    assert_eq!(untouched.status, MarketStatus::Resolved);
}

#[test]
fn only_the_creator_resolves() {
    let mut market = market_with_wagers();
    let before = market.clone();
    let config = params(200, 100);
    let stranger = key(5);
    let got = resolve_market(&mut market, &config, stranger, key(PLATFORM), key(CREATOR), BetSide::Yes, 1_000);
    assert_eq!(got.unwrap_err(), MarketError::Unauthorized);
    // not even the platform authority
    let got =
        resolve_market(&mut market, &config, key(PLATFORM), key(PLATFORM), key(CREATOR), BetSide::Yes, 1_000);
    assert_eq!(got.unwrap_err(), MarketError::Unauthorized);
    assert_eq!(market, before);
}

#[test]
fn the_fee_recipients_must_be_the_configured_ones() {
    let mut market = market_with_wagers();
    let before = market.clone();
    let config = params(200, 100);
    let got = resolve_market(&mut market, &config, key(CREATOR), key(5), key(CREATOR), BetSide::Yes, 1_000);
    assert_eq!(got.unwrap_err(), MarketError::Unauthorized);
    let got = resolve_market(&mut market, &config, key(CREATOR), key(PLATFORM), key(5), BetSide::Yes, 1_000);
    assert_eq!(got.unwrap_err(), MarketError::Unauthorized);
    assert_eq!(market, before);
}

#[test]
fn addresses_are_compared_byte_by_byte() {
    let mut bytes = [CREATOR; 32];
    bytes[31] = 0;
    let nearly_creator = Pubkey::new_from_array(bytes);
    let config = params(200, 100);
    let mut market = market_with_wagers();
    let got =
        resolve_market(&mut market, &config, nearly_creator, key(PLATFORM), key(CREATOR), BetSide::Yes, 1_000);
    assert_eq!(got.unwrap_err(), MarketError::Unauthorized);
    let same_creator = Pubkey::new_from_array([CREATOR; 32]);
    let got =
        resolve_market(&mut market, &config, same_creator, key(PLATFORM), key(CREATOR), BetSide::Yes, 1_000);
    assert!(got.is_ok());
}

#[test]
fn a_market_is_resolved_only_once() {
    let mut market = market_with_wagers();
    resolve(&mut market, BetSide::Yes, 1_000).unwrap();
    let before = market.clone();
    assert_eq!(resolve(&mut market, BetSide::No, 1_001).unwrap_err(), MarketError::MarketAlreadyResolved);
    assert_eq!(market, before);
    assert_eq!(market.resolved_outcome, Some(BetSide::Yes));
}

#[test]
fn a_cancelled_market_is_not_resolved() {
    let mut market = market_with_wagers();
    cancel_market(&mut market, &params(200, 100), key(PLATFORM), 1_000).unwrap();
    let before = market.clone();
    assert_eq!(resolve(&mut market, BetSide::No, 1_001).unwrap_err(), MarketError::MarketAlreadyResolved);
    assert_eq!(market, before);
}

#[test]
fn a_market_is_not_resolved_before_its_end_date() {
    let mut market = market_with_wagers();
    let before = market.clone();
    assert_eq!(resolve(&mut market, BetSide::Yes, 999).unwrap_err(), MarketError::MarketNotEnded);
    assert_eq!(market, before);
    assert!(resolve(&mut market, BetSide::Yes, 1_000).is_ok());
}

#[test]
fn authorization_is_checked_before_state_and_time() {
    let mut market = market_with_wagers();
    market.status = MarketStatus::Resolved;
    let got = resolve_market(&mut market, &params(200, 100), key(5), key(PLATFORM), key(CREATOR), BetSide::Yes, 0);
    assert_eq!(got.unwrap_err(), MarketError::Unauthorized);
    assert_eq!(resolve(&mut market, BetSide::Yes, 0).unwrap_err(), MarketError::MarketAlreadyResolved);
    let got = cancel_market(&mut market, &params(200, 100), key(5), 0);
    assert_eq!(got.unwrap_err(), MarketError::Unauthorized);
    let got = cancel_market(&mut market, &params(200, 100), key(PLATFORM), 0);
    assert_eq!(got.unwrap_err(), MarketError::CannotCancelResolvedMarket);
}

#[test]
fn cancellation_moves_nothing() {
    let mut market = market_with_wagers();
    let before = market.clone();
    let event = cancel_market(&mut market, &params(200, 100), key(PLATFORM), 1_000).unwrap();
    assert_eq!(
        event,
        MarketCancelledEvent { market_id: 7, yes_pool: 970, no_pool: 970, total_bets: 2, timestamp: 1_000 }
    );
    assert_eq!(market.status, MarketStatus::Cancelled);
    assert_eq!(market.resolved_outcome, None);
    assert_eq!(market.yes_pool, before.yes_pool);
    assert_eq!(market.no_pool, before.no_pool);
    assert_eq!(market.total_volume, before.total_volume);
    assert_eq!(market.total_platform_fees, before.total_platform_fees);
    assert_eq!(market.total_creator_fees, before.total_creator_fees);
    assert_eq!(market.total_claimed, 0);
}

#[test]
fn only_the_platform_authority_cancels() {
    let mut market = market_with_wagers();
    let before = market.clone();
    let got = cancel_market(&mut market, &params(200, 100), key(CREATOR), 1_000);
    assert_eq!(got.unwrap_err(), MarketError::Unauthorized);
    assert_eq!(market, before);
}

#[test]
fn a_market_is_not_cancelled_while_it_takes_wagers() {
    let mut market = market_with_wagers();
    let before = market.clone();
    let got = cancel_market(&mut market, &params(200, 100), key(PLATFORM), 999);
    assert_eq!(got.unwrap_err(), MarketError::CannotCancelBeforeEndDate);
    assert_eq!(market, before);
}

#[test]
fn a_market_that_has_ended_is_not_cancelled_again() {
    let mut market = market_with_wagers();
    cancel_market(&mut market, &params(200, 100), key(PLATFORM), 1_000).unwrap();
    let got = cancel_market(&mut market, &params(200, 100), key(PLATFORM), 1_001);
    assert_eq!(got.unwrap_err(), MarketError::CannotCancelResolvedMarket);
    let mut resolved = market_with_wagers();
    resolve(&mut resolved, BetSide::Yes, 1_000).unwrap();
    let before = resolved.clone();
    let got = cancel_market(&mut resolved, &params(200, 100), key(PLATFORM), 1_001);
    assert_eq!(got.unwrap_err(), MarketError::CannotCancelResolvedMarket);
    assert_eq!(resolved, before);
}

#[test]
fn a_market_that_has_ended_takes_no_more_wagers() {
    let config = params(200, 100);
    let mut resolved = market_with_wagers();
    resolve(&mut resolved, BetSide::Yes, 1_000).unwrap();
    let got = place_bet(&mut resolved, &config, key(2), BetSide::Yes, 1000, 20, 0);
    assert_eq!(got.unwrap_err(), MarketError::MarketNotActive);
    let mut cancelled = market_with_wagers();
    cancel_market(&mut cancelled, &config, key(PLATFORM), 1_000).unwrap();
    let got = place_bet(&mut cancelled, &config, key(2), BetSide::Yes, 1000, 20, 0);
    assert_eq!(got.unwrap_err(), MarketError::MarketNotActive);
}
