//! The escrow of a market creator's bond, and of the creator fees that a
//! market earns.
//!
//! A bond is refunded in full when its market succeeds, by half when the
//! proposal is rejected, and not at all when it is slashed. Whatever the
//! refund, a bond is processed only once.

use crate::keys::{is_same_key, same_key};
use crate::parameters::GlobalParameters;
use anchor_lang::prelude::Pubkey;
use vstd::prelude::*;

verus! {

/// What has become of a bond.
#[derive(Clone, Copy, Debug, PartialEq, Eq, Structural)]
pub enum BondStatus {
    /// Deposited and not yet processed.
    Active,
    /// Refunded in full.
    Refunded,
    /// Refunded by half.
    PartialRefund,
    /// Kept whole.
    Slashed,
}

/// The three sizes of bond that the configuration offers.
#[derive(Clone, Copy, Debug, PartialEq, Eq, Structural)]
pub enum BondTier {
    Tier1,
    Tier2,
    Tier3,
}

/// How much of a bond goes back to its creator.
#[derive(Clone, Copy, Debug, PartialEq, Eq, Structural)]
pub enum RefundType {
    Full,
    Partial,
    Slash,
}

/// Why an operation on a bond is turned down.
#[derive(Clone, Copy, Debug, PartialEq, Eq, Structural)]
pub enum BondError {
    /// The configured bond of the tier is zero.
    InvalidBondAmount,
    /// The bond has been refunded or slashed already.
    BondAlreadyProcessed,
    /// The caller is not the bond's creator.
    Unauthorized,
    /// No creator fees have accumulated.
    NoFeesToClaim,
    /// A fee of nothing.
    InvalidFeeAmount,
}

/// The escrow of one market.
#[derive(Clone, Copy, Debug, PartialEq, Eq)]
pub struct BondEscrow {
    pub creator: Pubkey,
    pub bond_amount: u64,
    pub market_id: u64,
    pub status: BondStatus,
    pub deposited_at: i64,
    /// When the bond was processed, once it has been.
    pub refunded_at: Option<i64>,
    /// Creator fees held for the creator to claim.
    pub accumulated_fees: u64,
    pub bond_tier: BondTier,
    pub bump: u8,
}

/// A bond was deposited.
#[derive(Clone, Copy, Debug, PartialEq, Eq)]
pub struct BondDepositedEvent {
    pub market_id: u64,
    pub creator: Pubkey,
    pub bond_amount: u64,
    pub bond_tier: BondTier,
    pub timestamp: i64,
}

/// A bond was processed: what went back to the creator, and why.
#[derive(Clone, Copy, Debug, PartialEq, Eq)]
pub struct BondRefundedEvent {
    pub market_id: u64,
    pub creator: Pubkey,
    pub refund_amount: u64,
    pub refund_type: RefundType,
    pub timestamp: i64,
}

/// The creator took the accumulated fees.
#[derive(Clone, Copy, Debug, PartialEq, Eq)]
pub struct CreatorFeesClaimedEvent {
    pub market_id: u64,
    pub creator: Pubkey,
    pub fee_amount: u64,
    pub timestamp: i64,
}

/// Creator fees were added to the escrow.
#[derive(Clone, Copy, Debug, PartialEq, Eq)]
pub struct CreatorFeesAddedEvent {
    pub market_id: u64,
    pub fee_amount: u64,
    pub total_accumulated: u64,
    pub timestamp: i64,
}

/// The bond that the configuration asks for a tier.
pub open spec fn bond_of_tier(params: GlobalParameters, bond_tier: BondTier) -> u64 {
    match bond_tier {
        BondTier::Tier1 => params.bond_tier_1_lamports,
        BondTier::Tier2 => params.bond_tier_2_lamports,
        BondTier::Tier3 => params.bond_tier_3_lamports,
    }
}

/// What of a bond goes back to its creator: all, half rounded down, or
/// nothing.
pub open spec fn refund_of(bond_amount: u64, refund_type: RefundType) -> u64 {
    match refund_type {
        RefundType::Full => bond_amount,
        RefundType::Partial => bond_amount / 2,
        RefundType::Slash => 0,
    }
}

/// The status that a refund leaves a bond in.
pub open spec fn status_after(refund_type: RefundType) -> BondStatus {
    match refund_type {
        RefundType::Full => BondStatus::Refunded,
        RefundType::Partial => BondStatus::PartialRefund,
        RefundType::Slash => BondStatus::Slashed,
    }
}

/// Reads the bond of a tier from the configuration.
pub fn bond_amount_for(params: &GlobalParameters, bond_tier: BondTier) -> (amount: u64)
    ensures
        amount == bond_of_tier(*params, bond_tier),
{
    match bond_tier {
        BondTier::Tier1 => params.bond_tier_1_lamports,
        BondTier::Tier2 => params.bond_tier_2_lamports,
        BondTier::Tier3 => params.bond_tier_3_lamports,
    }
}

/// Opens the escrow of a market with the bond of the chosen tier.
///
/// The caller moves the bond from the creator to the escrow. A tier whose
/// bond is configured as zero is rejected.
pub fn deposit_bond(
    params: &GlobalParameters,
    creator: Pubkey,
    market_id: u64,
    bond_tier: BondTier,
    now: i64,
    bump: u8,
) -> (deposited: Result<(BondEscrow, BondDepositedEvent), BondError>)
    ensures
        bond_of_tier(*params, bond_tier) == 0 ==> deposited == Err::<
            (BondEscrow, BondDepositedEvent),
            BondError,
        >(BondError::InvalidBondAmount),
        bond_of_tier(*params, bond_tier) > 0 ==> deposited == Ok::<
            (BondEscrow, BondDepositedEvent),
            BondError,
        >(
            (
                BondEscrow {
                    creator,
                    bond_amount: bond_of_tier(*params, bond_tier),
                    market_id,
                    status: BondStatus::Active,
                    deposited_at: now,
                    refunded_at: None,
                    accumulated_fees: 0,
                    bond_tier,
                    bump,
                },
                BondDepositedEvent {
                    market_id,
                    creator,
                    bond_amount: bond_of_tier(*params, bond_tier),
                    bond_tier,
                    timestamp: now,
                },
            ),
        ),
{
    let bond_amount = bond_amount_for(params, bond_tier);
    if bond_amount == 0 {
        return Err(BondError::InvalidBondAmount);
    }
    let escrow = BondEscrow {
        creator,
        bond_amount,
        market_id,
        status: BondStatus::Active,
        deposited_at: now,
        refunded_at: None,
        accumulated_fees: 0,
        bond_tier,
        bump,
    };
    let event = BondDepositedEvent { market_id, creator, bond_amount, bond_tier, timestamp: now };
    Ok((escrow, event))
}

/// Why a refund is turned down, if it is: the first check that fails.
pub open spec fn bond_refund_rejection(escrow: BondEscrow, creator: Pubkey) -> Option<BondError> {
    if escrow.status != BondStatus::Active {
        Some(BondError::BondAlreadyProcessed)
    } else if !is_same_key(escrow.creator, creator) {
        Some(BondError::Unauthorized)
    } else {
        None
    }
}

/// Processes a bond: refunds it in full, by half, or not at all.
///
/// The caller moves the event's refund from the escrow to the creator, if it
/// is not zero. A bond is processed once; a rejected refund leaves the escrow
/// untouched.
pub fn refund_bond(escrow: &mut BondEscrow, creator: Pubkey, refund_type: RefundType, now: i64) -> (refunded:
    Result<BondRefundedEvent, BondError>)
    ensures
        match bond_refund_rejection(*old(escrow), creator) {
            Some(error) => {
                &&& refunded == Err::<BondRefundedEvent, BondError>(error)
                &&& *final(escrow) == *old(escrow)
            },
            None => {
                &&& refunded == Ok::<BondRefundedEvent, BondError>(
                    (BondRefundedEvent {
                        market_id: old(escrow).market_id,
                        creator: old(escrow).creator,
                        refund_amount: refund_of(old(escrow).bond_amount, refund_type),
                        refund_type,
                        timestamp: now,
                    }),
                )
                &&& *final(escrow) == (BondEscrow {
                    status: status_after(refund_type),
                    refunded_at: Some(now),
                    ..*old(escrow)
                })
                &&& refund_of(old(escrow).bond_amount, refund_type) <= old(escrow).bond_amount
            },
        },
{
    if escrow.status != BondStatus::Active {
        return Err(BondError::BondAlreadyProcessed);
    }
    if !same_key(&escrow.creator, &creator) {
        return Err(BondError::Unauthorized);
    }
    let refund_amount = match refund_type {
        RefundType::Full => escrow.bond_amount,
        RefundType::Partial => escrow.bond_amount / 2,
        RefundType::Slash => 0,
    };
    escrow.status =
    match refund_type {
        RefundType::Full => BondStatus::Refunded,
        RefundType::Partial => BondStatus::PartialRefund,
        RefundType::Slash => BondStatus::Slashed,
    };
    escrow.refunded_at = Some(now);
    Ok(
        BondRefundedEvent {
            market_id: escrow.market_id,
            creator: escrow.creator,
            refund_amount,
            refund_type,
            timestamp: now,
        },
    )
}

/// Why a claim for creator fees is turned down, if it is: the first check
/// that fails.
pub open spec fn fee_claim_rejection(escrow: BondEscrow, creator: Pubkey) -> Option<BondError> {
    if !is_same_key(escrow.creator, creator) {
        Some(BondError::Unauthorized)
    } else if escrow.accumulated_fees == 0 {
        Some(BondError::NoFeesToClaim)
    } else {
        None
    }
}

/// Hands the accumulated creator fees to the creator and empties the
/// counter. The caller moves the event's amount from the escrow to the
/// creator.
pub fn claim_creator_fees(escrow: &mut BondEscrow, creator: Pubkey, now: i64) -> (claimed: Result<
    CreatorFeesClaimedEvent,
    BondError,
>)
    ensures
        match fee_claim_rejection(*old(escrow), creator) {
            Some(error) => {
                &&& claimed == Err::<CreatorFeesClaimedEvent, BondError>(error)
                &&& *final(escrow) == *old(escrow)
            },
            None => {
                &&& claimed == Ok::<CreatorFeesClaimedEvent, BondError>(
                    (CreatorFeesClaimedEvent {
                        market_id: old(escrow).market_id,
                        creator: old(escrow).creator,
                        fee_amount: old(escrow).accumulated_fees,
                        timestamp: now,
                    }),
                )
                &&& *final(escrow) == (BondEscrow { accumulated_fees: 0, ..*old(escrow) })
            },
        },
{
    if !same_key(&escrow.creator, &creator) {
        return Err(BondError::Unauthorized);
    }
    if escrow.accumulated_fees == 0 {
        return Err(BondError::NoFeesToClaim);
    }
    let fee_amount = escrow.accumulated_fees;
    escrow.accumulated_fees = 0;
    Ok(
        CreatorFeesClaimedEvent {
            market_id: escrow.market_id,
            creator: escrow.creator,
            fee_amount,
            timestamp: now,
        },
    )
}

/// Adds creator fees to the escrow. The caller moves them in. The counter
/// must have room for them.
pub fn add_creator_fees(escrow: &mut BondEscrow, fee_amount: u64, now: i64) -> (added: Result<
    CreatorFeesAddedEvent,
    BondError,
>)
    requires
        old(escrow).accumulated_fees + fee_amount <= u64::MAX,
    ensures
        fee_amount == 0 ==> {
            &&& added == Err::<CreatorFeesAddedEvent, BondError>(BondError::InvalidFeeAmount)
            &&& *final(escrow) == *old(escrow)
        },
        fee_amount > 0 ==> {
            &&& added == Ok::<CreatorFeesAddedEvent, BondError>(
                (CreatorFeesAddedEvent {
                    market_id: old(escrow).market_id,
                    fee_amount,
                    total_accumulated: (old(escrow).accumulated_fees + fee_amount) as u64,
                    timestamp: now,
                }),
            )
            &&& *final(escrow) == (BondEscrow {
                accumulated_fees: (old(escrow).accumulated_fees + fee_amount) as u64,
                ..*old(escrow)
            })
        },
{
    if fee_amount == 0 {
        return Err(BondError::InvalidFeeAmount);
    }
    escrow.accumulated_fees = escrow.accumulated_fees + fee_amount;
    Ok(
        CreatorFeesAddedEvent {
            market_id: escrow.market_id,
            fee_amount,
            total_accumulated: escrow.accumulated_fees,
            timestamp: now,
        },
    )
}

/// A bond is processed once: after a refund of whatever kind, every further
/// refund is rejected as already processed, whoever asks for it.
pub proof fn lemma_bond_processed_once(
    escrow: BondEscrow,
    creator: Pubkey,
    refund_type: RefundType,
    now: i64,
    again: Pubkey,
)
    requires
        bond_refund_rejection(escrow, creator) is None,
    ensures
        bond_refund_rejection(
            (BondEscrow { status: status_after(refund_type), refunded_at: Some(now), ..escrow }),
            again,
        ) == Some(BondError::BondAlreadyProcessed),
{
}

/// Of a bond never more than the bond itself goes back.
pub proof fn lemma_refund_within_bond(bond_amount: u64, refund_type: RefundType)
    ensures
        refund_of(bond_amount, refund_type) <= bond_amount,
{
}

} // verus!
