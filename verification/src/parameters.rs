//! The platform's configuration: fee rates, wager bounds, time limits and
//! feature switches, with the rules under which the authority may change
//! them.
//!
//! A numeric parameter moves by a bounded fraction of its value per update,
//! and after every update a cooldown runs before the next. Switches take
//! effect at once.

use crate::calculator::fee_rates_valid;
use crate::keys::{is_same_key, same_key};
use anchor_lang::prelude::Pubkey;
use vstd::prelude::*;

verus! {

/// The numeric parameters shared by every market.
#[derive(Clone, Copy, Debug, PartialEq, Eq)]
pub struct GlobalParameters {
    /// Who may change the parameters, cancel markets and receive platform fees.
    pub authority: Pubkey,
    pub creation_bond_lamports: u64,
    pub platform_fee_bps: u16,
    pub creator_fee_bps: u16,
    pub min_bet_lamports: u64,
    pub max_bet_lamports: u64,
    pub max_market_size_lamports: u64,
    pub min_duration_seconds: i64,
    pub max_duration_seconds: i64,
    pub dispute_window_seconds: i64,
    pub bond_tier_1_lamports: u64,
    pub bond_tier_2_lamports: u64,
    pub bond_tier_3_lamports: u64,
    pub stale_market_threshold_days: i64,
    /// 0 for one vote per wallet, 1 for votes weighted by activity.
    pub voting_weight_mode: u8,
    pub approved_refund_bps: u16,
    pub rejected_refund_bps: u16,
    pub cancelled_refund_bps: u16,
    /// How long after an update the next one has to wait.
    pub update_cooldown_seconds: i64,
    /// By how much of its value, in basis points, one update may move a parameter.
    pub max_change_bps: u16,
    pub last_updated: i64,
    pub cooldown_until: i64,
    pub version: u32,
    pub bump: u8,
}

/// The switches that turn whole features on and off.
#[derive(Clone, Copy, Debug, PartialEq, Eq)]
pub struct GlobalFeatureToggles {
    /// Who may flip the switches.
    pub authority: Pubkey,
    pub market_creation_enabled: bool,
    pub betting_enabled: bool,
    pub resolution_enabled: bool,
    pub proposals_enabled: bool,
    pub emergency_pause: bool,
    pub last_updated: i64,
    pub version: u32,
    pub bump: u8,
}

/// The parameters that an update can name.
#[derive(Clone, Copy, Debug, PartialEq, Eq, Structural)]
pub enum ParameterType {
    CreationBond,
    PlatformFee,
    CreatorFee,
    MinBet,
    MaxBet,
    MaxMarketSize,
    MinDuration,
    MaxDuration,
    DisputeWindow,
    BondTier1,
    BondTier2,
    BondTier3,
    StaleMarketThreshold,
    VotingWeightMode,
    ApprovedRefund,
    RejectedRefund,
    CancelledRefund,
}

/// The switches that an update can name.
#[derive(Clone, Copy, Debug, PartialEq, Eq, Structural)]
pub enum ToggleType {
    MarketCreation,
    Betting,
    Resolution,
    Proposals,
    EmergencyPause,
}

/// Why a change of configuration is turned down.
#[derive(Clone, Copy, Debug, PartialEq, Eq, Structural)]
pub enum ParameterError {
    /// The caller is not the authority.
    Unauthorized,
    /// The cooldown of the last update still runs.
    CooldownNotExpired,
    /// The new value is further from the old than one update may go.
    ChangeExceedsLimit,
    /// The parameter cannot hold the new value.
    InvalidValue,
}

/// The audit record of a changed parameter.
#[derive(Clone, Copy, Debug, PartialEq, Eq)]
pub struct ParameterUpdatedEvent {
    pub authority: Pubkey,
    pub param_type: ParameterType,
    pub old_value: u64,
    pub new_value: u64,
    pub timestamp: i64,
}

/// The audit record of a flipped switch.
#[derive(Clone, Copy, Debug, PartialEq, Eq)]
pub struct ToggleUpdatedEvent {
    pub authority: Pubkey,
    pub toggle_type: ToggleType,
    pub old_value: bool,
    pub new_value: bool,
    pub timestamp: i64,
}

/// A signed number of seconds read as an unsigned value: itself where it is
/// not negative, and 2^64 more where it is.
pub open spec fn unsigned_of(seconds: i64) -> u64 {
    if seconds >= 0 {
        seconds as u64
    } else {
        (seconds + 0x1_0000_0000_0000_0000) as u64
    }
}

/// An unsigned value read as a signed number of seconds: itself where it is
/// below 2^63, and 2^64 less where it is not.
pub open spec fn signed_of(value: u64) -> i64 {
    if value <= i64::MAX {
        value as i64
    } else {
        (value - 0x1_0000_0000_0000_0000) as i64
    }
}

fn to_unsigned(seconds: i64) -> (value: u64)
    ensures
        value == unsigned_of(seconds),
{
    if seconds >= 0 {
        seconds as u64
    } else {
        let lifted: i64 = seconds + i64::MAX + 1;
        lifted as u64 + 0x8000_0000_0000_0000
    }
}

fn to_signed(value: u64) -> (seconds: i64)
    ensures
        seconds == signed_of(value),
{
    if value <= 0x7fff_ffff_ffff_ffff {
        value as i64
    } else {
        let lowered: u64 = value - 0x8000_0000_0000_0000;
        lowered as i64 - i64::MAX - 1
    }
}

/// Whether a parameter can hold `value`: a rate or a refund share is at most
/// 10000 basis points, the voting mode 0 or 1; the others take any value.
pub open spec fn value_fits(param_type: ParameterType, value: u64) -> bool {
    match param_type {
        ParameterType::PlatformFee
        | ParameterType::CreatorFee
        | ParameterType::ApprovedRefund
        | ParameterType::RejectedRefund
        | ParameterType::CancelledRefund => value <= 10000,
        ParameterType::VotingWeightMode => value <= 1,
        _ => true,
    }
}

/// Whether one update may take a parameter from `old_value` to `new_value`:
/// from zero anywhere, and else no further than `max_change_bps` basis points
/// of the old value, rounded down.
pub open spec fn change_allowed(old_value: u64, new_value: u64, max_change_bps: u16) -> bool {
    old_value == 0 || {
        let diff = if new_value > old_value {
            new_value - old_value
        } else {
            old_value - new_value
        };
        diff <= old_value * max_change_bps / 10000
    }
}

impl GlobalParameters {
    /// Every rate and refund share is at most the whole, and the voting mode
    /// is one of the two there are.
    pub open spec fn in_range(self) -> bool {
        &&& self.platform_fee_bps <= 10000
        &&& self.creator_fee_bps <= 10000
        &&& self.approved_refund_bps <= 10000
        &&& self.rejected_refund_bps <= 10000
        &&& self.cancelled_refund_bps <= 10000
        &&& self.voting_weight_mode <= 1
    }

    /// The value of one parameter, as an unsigned number.
    pub open spec fn parameter_value(self, param_type: ParameterType) -> u64 {
        match param_type {
            ParameterType::CreationBond => self.creation_bond_lamports,
            ParameterType::PlatformFee => self.platform_fee_bps as u64,
            ParameterType::CreatorFee => self.creator_fee_bps as u64,
            ParameterType::MinBet => self.min_bet_lamports,
            ParameterType::MaxBet => self.max_bet_lamports,
            ParameterType::MaxMarketSize => self.max_market_size_lamports,
            ParameterType::MinDuration => unsigned_of(self.min_duration_seconds),
            ParameterType::MaxDuration => unsigned_of(self.max_duration_seconds),
            ParameterType::DisputeWindow => unsigned_of(self.dispute_window_seconds),
            ParameterType::BondTier1 => self.bond_tier_1_lamports,
            ParameterType::BondTier2 => self.bond_tier_2_lamports,
            ParameterType::BondTier3 => self.bond_tier_3_lamports,
            ParameterType::StaleMarketThreshold => unsigned_of(self.stale_market_threshold_days),
            ParameterType::VotingWeightMode => self.voting_weight_mode as u64,
            ParameterType::ApprovedRefund => self.approved_refund_bps as u64,
            ParameterType::RejectedRefund => self.rejected_refund_bps as u64,
            ParameterType::CancelledRefund => self.cancelled_refund_bps as u64,
        }
    }

    /// These parameters with one of them set to `value`, which it can hold.
    pub open spec fn with_parameter(self, param_type: ParameterType, value: u64) -> Self
        recommends
            value_fits(param_type, value),
    {
        match param_type {
            ParameterType::CreationBond => GlobalParameters {
                creation_bond_lamports: value,
                ..self
            },
            ParameterType::PlatformFee => GlobalParameters {
                platform_fee_bps: value as u16,
                ..self
            },
            ParameterType::CreatorFee => GlobalParameters { creator_fee_bps: value as u16, ..self },
            ParameterType::MinBet => GlobalParameters { min_bet_lamports: value, ..self },
            ParameterType::MaxBet => GlobalParameters { max_bet_lamports: value, ..self },
            ParameterType::MaxMarketSize => GlobalParameters {
                max_market_size_lamports: value,
                ..self
            },
            ParameterType::MinDuration => GlobalParameters {
                min_duration_seconds: signed_of(value),
                ..self
            },
            ParameterType::MaxDuration => GlobalParameters {
                max_duration_seconds: signed_of(value),
                ..self
            },
            ParameterType::DisputeWindow => GlobalParameters {
                dispute_window_seconds: signed_of(value),
                ..self
            },
            ParameterType::BondTier1 => GlobalParameters { bond_tier_1_lamports: value, ..self },
            ParameterType::BondTier2 => GlobalParameters { bond_tier_2_lamports: value, ..self },
            ParameterType::BondTier3 => GlobalParameters { bond_tier_3_lamports: value, ..self },
            ParameterType::StaleMarketThreshold => GlobalParameters {
                stale_market_threshold_days: signed_of(value),
                ..self
            },
            ParameterType::VotingWeightMode => GlobalParameters {
                voting_weight_mode: value as u8,
                ..self
            },
            ParameterType::ApprovedRefund => GlobalParameters {
                approved_refund_bps: value as u16,
                ..self
            },
            ParameterType::RejectedRefund => GlobalParameters {
                rejected_refund_bps: value as u16,
                ..self
            },
            ParameterType::CancelledRefund => GlobalParameters {
                cancelled_refund_bps: value as u16,
                ..self
            },
        }
    }

    /// Reads one parameter as an unsigned number.
    pub fn get_parameter_value(&self, param_type: &ParameterType) -> (value: u64)
        ensures
            value == self.parameter_value(*param_type),
    {
        match param_type {
            ParameterType::CreationBond => self.creation_bond_lamports,
            ParameterType::PlatformFee => self.platform_fee_bps as u64,
            ParameterType::CreatorFee => self.creator_fee_bps as u64,
            ParameterType::MinBet => self.min_bet_lamports,
            ParameterType::MaxBet => self.max_bet_lamports,
            ParameterType::MaxMarketSize => self.max_market_size_lamports,
            ParameterType::MinDuration => to_unsigned(self.min_duration_seconds),
            ParameterType::MaxDuration => to_unsigned(self.max_duration_seconds),
            ParameterType::DisputeWindow => to_unsigned(self.dispute_window_seconds),
            ParameterType::BondTier1 => self.bond_tier_1_lamports,
            ParameterType::BondTier2 => self.bond_tier_2_lamports,
            ParameterType::BondTier3 => self.bond_tier_3_lamports,
            ParameterType::StaleMarketThreshold => to_unsigned(self.stale_market_threshold_days),
            ParameterType::VotingWeightMode => self.voting_weight_mode as u64,
            ParameterType::ApprovedRefund => self.approved_refund_bps as u64,
            ParameterType::RejectedRefund => self.rejected_refund_bps as u64,
            ParameterType::CancelledRefund => self.cancelled_refund_bps as u64,
        }
    }

    /// Sets one parameter, unless it cannot hold the value.
    pub fn set_parameter_value(&mut self, param_type: &ParameterType, value: u64) -> (set: Result<
        (),
        ParameterError,
    >)
        ensures
            value_fits(*param_type, value) ==> set is Ok && *final(self) == old(
                self,
            ).with_parameter(*param_type, value),
            !value_fits(*param_type, value) ==> set == Err::<(), ParameterError>(
                ParameterError::InvalidValue,
            ) && *final(self) == *old(self),
            set is Ok ==> final(self).parameter_value(*param_type) == value,
            old(self).in_range() ==> final(self).in_range(),
    {
        match param_type {
            ParameterType::CreationBond => {
                self.creation_bond_lamports = value;
            },
            ParameterType::PlatformFee => {
                if value > 10000 {
                    return Err(ParameterError::InvalidValue);
                }
                self.platform_fee_bps = value as u16;
            },
            ParameterType::CreatorFee => {
                if value > 10000 {
                    return Err(ParameterError::InvalidValue);
                }
                self.creator_fee_bps = value as u16;
            },
            ParameterType::MinBet => {
                self.min_bet_lamports = value;
            },
            ParameterType::MaxBet => {
                self.max_bet_lamports = value;
            },
            ParameterType::MaxMarketSize => {
                self.max_market_size_lamports = value;
            },
            ParameterType::MinDuration => {
                self.min_duration_seconds = to_signed(value);
            },
            ParameterType::MaxDuration => {
                self.max_duration_seconds = to_signed(value);
            },
            ParameterType::DisputeWindow => {
                self.dispute_window_seconds = to_signed(value);
            },
            ParameterType::BondTier1 => {
                self.bond_tier_1_lamports = value;
            },
            ParameterType::BondTier2 => {
                self.bond_tier_2_lamports = value;
            },
            ParameterType::BondTier3 => {
                self.bond_tier_3_lamports = value;
            },
            ParameterType::StaleMarketThreshold => {
                self.stale_market_threshold_days = to_signed(value);
            },
            ParameterType::VotingWeightMode => {
                if value > 1 {
                    return Err(ParameterError::InvalidValue);
                }
                self.voting_weight_mode = value as u8;
            },
            ParameterType::ApprovedRefund => {
                if value > 10000 {
                    return Err(ParameterError::InvalidValue);
                }
                self.approved_refund_bps = value as u16;
            },
            ParameterType::RejectedRefund => {
                if value > 10000 {
                    return Err(ParameterError::InvalidValue);
                }
                self.rejected_refund_bps = value as u16;
            },
            ParameterType::CancelledRefund => {
                if value > 10000 {
                    return Err(ParameterError::InvalidValue);
                }
                self.cancelled_refund_bps = value as u16;
            },
        }
        Ok(())
    }
}

impl GlobalFeatureToggles {
    /// The state of one switch.
    pub open spec fn toggle_value(self, toggle_type: ToggleType) -> bool {
        match toggle_type {
            ToggleType::MarketCreation => self.market_creation_enabled,
            ToggleType::Betting => self.betting_enabled,
            ToggleType::Resolution => self.resolution_enabled,
            ToggleType::Proposals => self.proposals_enabled,
            ToggleType::EmergencyPause => self.emergency_pause,
        }
    }

    /// These switches with one of them set to `enabled`.
    pub open spec fn with_toggle(self, toggle_type: ToggleType, enabled: bool) -> Self {
        match toggle_type {
            ToggleType::MarketCreation => GlobalFeatureToggles {
                market_creation_enabled: enabled,
                ..self
            },
            ToggleType::Betting => GlobalFeatureToggles { betting_enabled: enabled, ..self },
            ToggleType::Resolution => GlobalFeatureToggles { resolution_enabled: enabled, ..self },
            ToggleType::Proposals => GlobalFeatureToggles { proposals_enabled: enabled, ..self },
            ToggleType::EmergencyPause => GlobalFeatureToggles { emergency_pause: enabled, ..self },
        }
    }

    /// Reads one switch.
    pub fn get_toggle_value(&self, toggle_type: &ToggleType) -> (enabled: bool)
        ensures
            enabled == self.toggle_value(*toggle_type),
    {
        match toggle_type {
            ToggleType::MarketCreation => self.market_creation_enabled,
            ToggleType::Betting => self.betting_enabled,
            ToggleType::Resolution => self.resolution_enabled,
            ToggleType::Proposals => self.proposals_enabled,
            ToggleType::EmergencyPause => self.emergency_pause,
        }
    }

    /// Sets one switch. This always succeeds.
    pub fn set_toggle_value(&mut self, toggle_type: &ToggleType, enabled: bool) -> (set: Result<
        (),
        ParameterError,
    >)
        ensures
            set is Ok,
            *final(self) == old(self).with_toggle(*toggle_type, enabled),
            final(self).toggle_value(*toggle_type) == enabled,
    {
        match toggle_type {
            ToggleType::MarketCreation => {
                self.market_creation_enabled = enabled;
            },
            ToggleType::Betting => {
                self.betting_enabled = enabled;
            },
            ToggleType::Resolution => {
                self.resolution_enabled = enabled;
            },
            ToggleType::Proposals => {
                self.proposals_enabled = enabled;
            },
            ToggleType::EmergencyPause => {
                self.emergency_pause = enabled;
            },
        }
        Ok(())
    }
}

/// Checks that one update may take a parameter from `old_value` to
/// `new_value`.
pub fn validate_parameter_change(old_value: u64, new_value: u64, max_change_bps: u16) -> (checked:
    Result<(), ParameterError>)
    ensures
        change_allowed(old_value, new_value, max_change_bps) ==> checked is Ok,
        !change_allowed(old_value, new_value, max_change_bps) ==> checked == Err::<
            (),
            ParameterError,
        >(ParameterError::ChangeExceedsLimit),
{
    if old_value == 0 {
        return Ok(());
    }
    let diff: u64 = if new_value > old_value {
        new_value - old_value
    } else {
        old_value - new_value
    };
    assert(old_value as nat * max_change_bps as nat <= 0xffff_ffff_ffff_ffff * 0xffff)
        by (nonlinear_arith)
        requires
            old_value <= 0xffff_ffff_ffff_ffff,
            max_change_bps <= 0xffff,
    ;
    let max_allowed_change: u128 = (old_value as u128) * (max_change_bps as u128) / 10000;
    if diff as u128 <= max_allowed_change {
        Ok(())
    } else {
        Err(ParameterError::ChangeExceedsLimit)
    }
}

/// The parameters a platform starts with.
pub open spec fn initial_parameters(authority: Pubkey, now: i64, bump: u8) -> GlobalParameters {
    GlobalParameters {
        authority,
        creation_bond_lamports: 100_000_000,
        platform_fee_bps: 200,
        creator_fee_bps: 100,
        min_bet_lamports: 10_000_000,
        max_bet_lamports: 100_000_000_000,
        max_market_size_lamports: 1_000_000_000_000,
        min_duration_seconds: 3600,
        max_duration_seconds: 31_536_000,
        dispute_window_seconds: 172_800,
        bond_tier_1_lamports: 100_000_000,
        bond_tier_2_lamports: 500_000_000,
        bond_tier_3_lamports: 1_000_000_000,
        stale_market_threshold_days: 30,
        voting_weight_mode: 0,
        approved_refund_bps: 10000,
        rejected_refund_bps: 5000,
        cancelled_refund_bps: 10000,
        update_cooldown_seconds: 86_400,
        max_change_bps: 2000,
        last_updated: now,
        cooldown_until: 0,
        version: 1,
        bump,
    }
}

/// The switches a platform starts with: everything on, no emergency pause.
pub open spec fn initial_toggles(authority: Pubkey, now: i64, bump: u8) -> GlobalFeatureToggles {
    GlobalFeatureToggles {
        authority,
        market_creation_enabled: true,
        betting_enabled: true,
        resolution_enabled: true,
        proposals_enabled: true,
        emergency_pause: false,
        last_updated: now,
        version: 1,
        bump,
    }
}

/// Sets up the configuration of a platform with its defaults: 2% platform
/// and 1% creator fee, wagers from 0.01 to 100 units of 10^9, a 48 hour
/// dispute window, a 24 hour cooldown and at most 20% change per update.
pub fn initialize_parameters(
    authority: Pubkey,
    now: i64,
    parameters_bump: u8,
    toggles_bump: u8,
) -> (initial: (GlobalParameters, GlobalFeatureToggles))
    ensures
        initial.0 == initial_parameters(authority, now, parameters_bump),
        initial.1 == initial_toggles(authority, now, toggles_bump),
        initial.0.in_range(),
        fee_rates_valid(initial.0.platform_fee_bps, initial.0.creator_fee_bps),
{
    let parameters = GlobalParameters {
        authority,
        creation_bond_lamports: 100_000_000,
        platform_fee_bps: 200,
        creator_fee_bps: 100,
        min_bet_lamports: 10_000_000,
        max_bet_lamports: 100_000_000_000,
        max_market_size_lamports: 1_000_000_000_000,
        min_duration_seconds: 3600,
        max_duration_seconds: 31_536_000,
        dispute_window_seconds: 172_800,
        bond_tier_1_lamports: 100_000_000,
        bond_tier_2_lamports: 500_000_000,
        bond_tier_3_lamports: 1_000_000_000,
        stale_market_threshold_days: 30,
        voting_weight_mode: 0,
        approved_refund_bps: 10000,
        rejected_refund_bps: 5000,
        cancelled_refund_bps: 10000,
        update_cooldown_seconds: 86_400,
        max_change_bps: 2000,
        last_updated: now,
        cooldown_until: 0,
        version: 1,
        bump: parameters_bump,
    };
    let toggles = GlobalFeatureToggles {
        authority,
        market_creation_enabled: true,
        betting_enabled: true,
        resolution_enabled: true,
        proposals_enabled: true,
        emergency_pause: false,
        last_updated: now,
        version: 1,
        bump: toggles_bump,
    };
    (parameters, toggles)
}

/// Why an update of a parameter is turned down, if it is: the first check
/// that fails.
pub open spec fn update_rejection(
    parameters: GlobalParameters,
    authority: Pubkey,
    param_type: ParameterType,
    new_value: u64,
    now: i64,
) -> Option<ParameterError> {
    if !is_same_key(authority, parameters.authority) {
        Some(ParameterError::Unauthorized)
    } else if now < parameters.cooldown_until {
        Some(ParameterError::CooldownNotExpired)
    } else if !change_allowed(
        parameters.parameter_value(param_type),
        new_value,
        parameters.max_change_bps,
    ) {
        Some(ParameterError::ChangeExceedsLimit)
    } else if !value_fits(param_type, new_value) {
        Some(ParameterError::InvalidValue)
    } else {
        None
    }
}

/// The parameters after an accepted update at `now`: the new value is set
/// and the cooldown runs from `now`.
pub open spec fn parameters_after_update(
    parameters: GlobalParameters,
    param_type: ParameterType,
    new_value: u64,
    now: i64,
) -> GlobalParameters {
    GlobalParameters {
        last_updated: now,
        cooldown_until: (now + parameters.update_cooldown_seconds) as i64,
        ..parameters.with_parameter(param_type, new_value)
    }
}

/// Changes one parameter.
///
/// Only the authority may do so, only once the cooldown of the last update
/// has run out, and only by as much as one update may go. A rejected update
/// leaves the parameters untouched. The end of the new cooldown must be a
/// representable time.
pub fn update_parameter(
    parameters: &mut GlobalParameters,
    authority: Pubkey,
    param_type: ParameterType,
    new_value: u64,
    now: i64,
) -> (updated: Result<ParameterUpdatedEvent, ParameterError>)
    requires
        update_rejection(*old(parameters), authority, param_type, new_value, now) is None ==> i64::MIN
            <= now + old(parameters).update_cooldown_seconds <= i64::MAX,
    ensures
        match update_rejection(*old(parameters), authority, param_type, new_value, now) {
            Some(error) => {
                &&& updated == Err::<ParameterUpdatedEvent, ParameterError>(error)
                &&& *final(parameters) == *old(parameters)
            },
            None => {
                &&& updated == Ok::<ParameterUpdatedEvent, ParameterError>(
                    (ParameterUpdatedEvent {
                        authority,
                        param_type,
                        old_value: old(parameters).parameter_value(param_type),
                        new_value,
                        timestamp: now,
                    }),
                )
                &&& *final(parameters) == parameters_after_update(
                    *old(parameters),
                    param_type,
                    new_value,
                    now,
                )
                &&& final(parameters).parameter_value(param_type) == new_value
            },
        },
        old(parameters).in_range() ==> final(parameters).in_range(),
{
    if !same_key(&authority, &parameters.authority) {
        return Err(ParameterError::Unauthorized);
    }
    if now < parameters.cooldown_until {
        return Err(ParameterError::CooldownNotExpired);
    }
    let current_value = parameters.get_parameter_value(&param_type);
    match validate_parameter_change(current_value, new_value, parameters.max_change_bps) {
        Ok(()) => {},
        Err(error) => {
            return Err(error);
        },
    }
    match parameters.set_parameter_value(&param_type, new_value) {
        Ok(()) => {},
        Err(error) => {
            return Err(error);
        },
    }
    parameters.last_updated = now;
    parameters.cooldown_until = now + parameters.update_cooldown_seconds;
    Ok(
        ParameterUpdatedEvent {
            authority,
            param_type,
            old_value: current_value,
            new_value,
            timestamp: now,
        },
    )
}

/// Flips one switch, at once and without a cooldown. Only the authority may
/// do so.
pub fn update_toggle(
    toggles: &mut GlobalFeatureToggles,
    authority: Pubkey,
    toggle_type: ToggleType,
    enabled: bool,
    now: i64,
) -> (updated: Result<ToggleUpdatedEvent, ParameterError>)
    ensures
        !is_same_key(authority, old(toggles).authority) ==> {
            &&& updated == Err::<ToggleUpdatedEvent, ParameterError>(ParameterError::Unauthorized)
            &&& *final(toggles) == *old(toggles)
        },
        is_same_key(authority, old(toggles).authority) ==> {
            &&& updated == Ok::<ToggleUpdatedEvent, ParameterError>(
                (ToggleUpdatedEvent {
                    authority,
                    toggle_type,
                    old_value: old(toggles).toggle_value(toggle_type),
                    new_value: enabled,
                    timestamp: now,
                }),
            )
            &&& *final(toggles) == (GlobalFeatureToggles {
                last_updated: now,
                ..old(toggles).with_toggle(toggle_type, enabled)
            })
        },
{
    if !same_key(&authority, &toggles.authority) {
        return Err(ParameterError::Unauthorized);
    }
    let old_value = toggles.get_toggle_value(&toggle_type);
    match toggles.set_toggle_value(&toggle_type, enabled) {
        Ok(()) => {},
        Err(error) => {
            return Err(error);
        },
    }
    toggles.last_updated = now;
    Ok(ToggleUpdatedEvent { authority, toggle_type, old_value, new_value: enabled, timestamp: now })
}

/// After an accepted update no other is accepted until its cooldown has run
/// out, whichever parameter it names.
pub proof fn lemma_cooldown_holds(
    parameters: GlobalParameters,
    authority: Pubkey,
    param_type: ParameterType,
    new_value: u64,
    now: i64,
    next_type: ParameterType,
    next_value: u64,
    next_time: i64,
)
    requires
        update_rejection(parameters, authority, param_type, new_value, now) is None,
        i64::MIN <= now + parameters.update_cooldown_seconds <= i64::MAX,
        next_time < now + parameters.update_cooldown_seconds,
    ensures
        update_rejection(
            parameters_after_update(parameters, param_type, new_value, now),
            authority,
            next_type,
            next_value,
            next_time,
        ) == Some(ParameterError::CooldownNotExpired),
{
}

/// What is written into a parameter is what is read from it, for every
/// value that the parameter can hold.
pub proof fn lemma_parameter_reads_back(
    parameters: GlobalParameters,
    param_type: ParameterType,
    value: u64,
)
    requires
        value_fits(param_type, value),
    ensures
        parameters.with_parameter(param_type, value).parameter_value(param_type) == value,
{
}

} // verus!
