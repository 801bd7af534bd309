//! How the outcome of a market is found: by votes tallied per market, closed
//! after a dispute window, or by the platform authority.

use crate::keys::{is_same_key, same_key};
use crate::parameters::GlobalParameters;
use anchor_lang::prelude::Pubkey;
use vstd::prelude::*;

verus! {

/// What a voter can vote for, and what a market can be resolved to.
#[derive(Clone, Copy, Debug, PartialEq, Eq, Structural)]
pub enum VoteChoice {
    Yes,
    No,
    Cancel,
}

/// Why an operation on a resolution is turned down.
#[derive(Clone, Copy, Debug, PartialEq, Eq, Structural)]
pub enum ResolutionError {
    /// The resolution is final; it takes no more votes and is not closed again.
    MarketAlreadyFinalized,
    /// The dispute window still runs.
    DisputeWindowNotEnded,
    /// The caller is not the platform authority.
    Unauthorized,
}

/// One voter's vote on one market.
#[derive(Clone, Copy, Debug, PartialEq, Eq)]
pub struct VoteRecord {
    pub market_id: u64,
    pub voter: Pubkey,
    pub vote_choice: VoteChoice,
    pub vote_weight: u64,
    pub timestamp: i64,
    pub bump: u8,
}

/// The tally of one market.
#[derive(Clone, Copy, Debug, PartialEq, Eq)]
pub struct ResolutionState {
    pub market_id: u64,
    pub yes_votes: u64,
    pub no_votes: u64,
    pub cancel_votes: u64,
    pub total_voters: u32,
    pub is_finalized: bool,
    /// The outcome, once the resolution is final.
    pub outcome: Option<VoteChoice>,
    pub voting_started_at: i64,
    pub dispute_window_ends_at: i64,
    pub finalized_at: Option<i64>,
    pub bump: u8,
}

/// The result of a vote held elsewhere, as posted by the platform.
#[derive(Clone, Copy, Debug, PartialEq, Eq)]
pub struct VoteResult {
    pub market_id: u64,
    pub outcome: VoteChoice,
    pub yes_vote_weight: u64,
    pub no_vote_weight: u64,
    pub total_votes_count: u32,
    /// The Merkle root of all votes, for verification.
    pub merkle_root: [u8; 32],
    pub posted_at: i64,
    pub posted_by: Pubkey,
    pub dispute_window_end: i64,
    pub bump: u8,
}

/// What the platform posts of a vote held elsewhere.
#[derive(Clone, Copy, Debug, PartialEq, Eq)]
pub struct PostVoteResultData {
    pub market_id: u64,
    pub outcome: VoteChoice,
    pub yes_vote_weight: u64,
    pub no_vote_weight: u64,
    pub total_votes_count: u32,
    pub merkle_root: [u8; 32],
}

/// A vote was counted.
#[derive(Clone, Copy, Debug, PartialEq, Eq)]
pub struct VoteSubmittedEvent {
    pub market_id: u64,
    pub voter: Pubkey,
    pub vote_choice: VoteChoice,
    pub vote_weight: u64,
    pub timestamp: i64,
}

/// The tally of a market was opened.
#[derive(Clone, Copy, Debug, PartialEq, Eq)]
pub struct ResolutionInitializedEvent {
    pub market_id: u64,
    pub voting_started_at: i64,
    pub dispute_window_ends_at: i64,
}

/// A resolution was closed by its tally.
#[derive(Clone, Copy, Debug, PartialEq, Eq)]
pub struct ResolutionFinalizedEvent {
    pub market_id: u64,
    pub outcome: VoteChoice,
    pub yes_votes: u64,
    pub no_votes: u64,
    pub cancel_votes: u64,
    pub total_voters: u32,
    pub timestamp: i64,
}

/// The authority set the outcome of a resolution.
#[derive(Clone, Copy, Debug, PartialEq, Eq)]
pub struct AdminOverrideEvent {
    pub market_id: u64,
    pub admin: Pubkey,
    pub outcome: VoteChoice,
    pub timestamp: i64,
}

/// The result of a vote held elsewhere was posted.
#[derive(Clone, Copy, Debug, PartialEq, Eq)]
pub struct VoteResultPostedEvent {
    pub market_id: u64,
    pub outcome: VoteChoice,
    pub yes_vote_weight: u64,
    pub no_vote_weight: u64,
    pub total_votes_count: u32,
    pub merkle_root: [u8; 32],
    pub dispute_window_end: i64,
    pub timestamp: i64,
}

/// The outcome of a tally: cancel where it has more votes than either side,
/// else the side with more votes, and cancel on a tie.
pub open spec fn outcome_of(yes_votes: u64, no_votes: u64, cancel_votes: u64) -> VoteChoice {
    if cancel_votes > yes_votes && cancel_votes > no_votes {
        VoteChoice::Cancel
    } else if yes_votes > no_votes {
        VoteChoice::Yes
    } else if no_votes > yes_votes {
        VoteChoice::No
    } else {
        VoteChoice::Cancel
    }
}

/// Finds the outcome of a tally by majority.
pub fn determine_outcome(yes_votes: u64, no_votes: u64, cancel_votes: u64) -> (outcome: VoteChoice)
    ensures
        outcome == outcome_of(yes_votes, no_votes, cancel_votes),
{
    if cancel_votes > yes_votes && cancel_votes > no_votes {
        VoteChoice::Cancel
    } else if yes_votes > no_votes {
        VoteChoice::Yes
    } else if no_votes > yes_votes {
        VoteChoice::No
    } else {
        VoteChoice::Cancel
    }
}

impl ResolutionState {
    /// The votes tallied so far for one choice.
    pub open spec fn votes_for(self, choice: VoteChoice) -> u64 {
        match choice {
            VoteChoice::Yes => self.yes_votes,
            VoteChoice::No => self.no_votes,
            VoteChoice::Cancel => self.cancel_votes,
        }
    }

    /// This tally with `weight` more votes for `choice` and one more voter.
    pub open spec fn with_vote(self, choice: VoteChoice, weight: u64) -> Self {
        let counted = ResolutionState { total_voters: (self.total_voters + 1) as u32, ..self };
        match choice {
            VoteChoice::Yes => ResolutionState {
                yes_votes: (self.yes_votes + weight) as u64,
                ..counted
            },
            VoteChoice::No => ResolutionState {
                no_votes: (self.no_votes + weight) as u64,
                ..counted
            },
            VoteChoice::Cancel => ResolutionState {
                cancel_votes: (self.cancel_votes + weight) as u64,
                ..counted
            },
        }
    }

    /// This resolution closed with `outcome` at `now`.
    pub open spec fn closed_with(self, outcome: VoteChoice, now: i64) -> Self {
        ResolutionState {
            is_finalized: true,
            outcome: Some(outcome),
            finalized_at: Some(now),
            ..self
        }
    }
}

/// Opens the tally of a market. Its dispute window runs from `now` for as
/// long as the configuration says, and must end at a representable time.
pub fn initialize_resolution(market_id: u64, params: &GlobalParameters, now: i64, bump: u8) -> (opened: (
    ResolutionState,
    ResolutionInitializedEvent,
))
    requires
        i64::MIN <= now + params.dispute_window_seconds <= i64::MAX,
    ensures
        opened.0 == (ResolutionState {
            market_id,
            yes_votes: 0,
            no_votes: 0,
            cancel_votes: 0,
            total_voters: 0,
            is_finalized: false,
            outcome: None,
            voting_started_at: now,
            dispute_window_ends_at: (now + params.dispute_window_seconds) as i64,
            finalized_at: None,
            bump,
        }),
        opened.1 == (ResolutionInitializedEvent {
            market_id,
            voting_started_at: now,
            dispute_window_ends_at: (now + params.dispute_window_seconds) as i64,
        }),
{
    let dispute_window_ends_at = now + params.dispute_window_seconds;
    let state = ResolutionState {
        market_id,
        yes_votes: 0,
        no_votes: 0,
        cancel_votes: 0,
        total_voters: 0,
        is_finalized: false,
        outcome: None,
        voting_started_at: now,
        dispute_window_ends_at,
        finalized_at: None,
        bump,
    };
    let event = ResolutionInitializedEvent {
        market_id,
        voting_started_at: now,
        dispute_window_ends_at,
    };
    (state, event)
}

/// Tells whether the tally and the voter count have room for one more vote
/// of the given weight.
pub fn vote_has_room(state: &ResolutionState, vote_choice: VoteChoice, vote_weight: u64) -> (room:
    bool)
    ensures
        room == (state.votes_for(vote_choice) + vote_weight <= u64::MAX && state.total_voters
            < u32::MAX),
{
    let tally = match vote_choice {
        VoteChoice::Yes => state.yes_votes,
        VoteChoice::No => state.no_votes,
        VoteChoice::Cancel => state.cancel_votes,
    };
    tally.checked_add(vote_weight).is_some() && state.total_voters < u32::MAX
}

/// Counts one vote: `vote_weight` more for the choice and one more voter.
///
/// A final resolution takes no more votes. The tally and the voter count
/// must have room for the vote.
pub fn submit_vote(
    state: &mut ResolutionState,
    voter: Pubkey,
    vote_choice: VoteChoice,
    vote_weight: u64,
    now: i64,
    bump: u8,
) -> (voted: Result<(VoteRecord, VoteSubmittedEvent), ResolutionError>)
    requires
        !old(state).is_finalized ==> old(state).votes_for(vote_choice) + vote_weight <= u64::MAX
            && old(state).total_voters < u32::MAX,
    ensures
        old(state).is_finalized ==> {
            &&& voted == Err::<(VoteRecord, VoteSubmittedEvent), ResolutionError>(
                ResolutionError::MarketAlreadyFinalized,
            )
            &&& *final(state) == *old(state)
        },
        !old(state).is_finalized ==> {
            &&& voted == Ok::<(VoteRecord, VoteSubmittedEvent), ResolutionError>(
                (
                    VoteRecord {
                        market_id: old(state).market_id,
                        voter,
                        vote_choice,
                        vote_weight,
                        timestamp: now,
                        bump,
                    },
                    VoteSubmittedEvent {
                        market_id: old(state).market_id,
                        voter,
                        vote_choice,
                        vote_weight,
                        timestamp: now,
                    },
                ),
            )
            &&& *final(state) == old(state).with_vote(vote_choice, vote_weight)
            &&& final(state).votes_for(vote_choice) == old(state).votes_for(vote_choice)
                + vote_weight
        },
{
    if state.is_finalized {
        return Err(ResolutionError::MarketAlreadyFinalized);
    }
    match vote_choice {
        VoteChoice::Yes => {
            state.yes_votes = state.yes_votes + vote_weight;
        },
        VoteChoice::No => {
            state.no_votes = state.no_votes + vote_weight;
        },
        VoteChoice::Cancel => {
            state.cancel_votes = state.cancel_votes + vote_weight;
        },
    }
    state.total_voters = state.total_voters + 1;
    let record = VoteRecord {
        market_id: state.market_id,
        voter,
        vote_choice,
        vote_weight,
        timestamp: now,
        bump,
    };
    let event = VoteSubmittedEvent {
        market_id: state.market_id,
        voter,
        vote_choice,
        vote_weight,
        timestamp: now,
    };
    Ok((record, event))
}

/// Why a resolution cannot be closed, if it cannot: the first check that
/// fails.
pub open spec fn finalization_rejection(state: ResolutionState, now: i64) -> Option<
    ResolutionError,
> {
    if state.is_finalized {
        Some(ResolutionError::MarketAlreadyFinalized)
    } else if now < state.dispute_window_ends_at {
        Some(ResolutionError::DisputeWindowNotEnded)
    } else {
        None
    }
}

/// Closes a resolution with the outcome of its tally, once the dispute
/// window has run out.
pub fn finalize_resolution(state: &mut ResolutionState, now: i64) -> (finalized: Result<
    ResolutionFinalizedEvent,
    ResolutionError,
>)
    ensures
        match finalization_rejection(*old(state), now) {
            Some(error) => {
                &&& finalized == Err::<ResolutionFinalizedEvent, ResolutionError>(error)
                &&& *final(state) == *old(state)
            },
            None => {
                let outcome = outcome_of(
                    old(state).yes_votes,
                    old(state).no_votes,
                    old(state).cancel_votes,
                );
                &&& finalized == Ok::<ResolutionFinalizedEvent, ResolutionError>(
                    (ResolutionFinalizedEvent {
                        market_id: old(state).market_id,
                        outcome,
                        yes_votes: old(state).yes_votes,
                        no_votes: old(state).no_votes,
                        cancel_votes: old(state).cancel_votes,
                        total_voters: old(state).total_voters,
                        timestamp: now,
                    }),
                )
                &&& *final(state) == old(state).closed_with(outcome, now)
            },
        },
{
    if state.is_finalized {
        return Err(ResolutionError::MarketAlreadyFinalized);
    }
    if now < state.dispute_window_ends_at {
        return Err(ResolutionError::DisputeWindowNotEnded);
    }
    let outcome = determine_outcome(state.yes_votes, state.no_votes, state.cancel_votes);
    state.is_finalized = true;
    state.outcome = Some(outcome);
    state.finalized_at = Some(now);
    Ok(
        ResolutionFinalizedEvent {
            market_id: state.market_id,
            outcome,
            yes_votes: state.yes_votes,
            no_votes: state.no_votes,
            cancel_votes: state.cancel_votes,
            total_voters: state.total_voters,
            timestamp: now,
        },
    )
}

/// Closes a resolution with the outcome that the platform authority sets,
/// whatever the tally says and whether or not it was closed before.
pub fn admin_override_resolution(
    state: &mut ResolutionState,
    params: &GlobalParameters,
    admin: Pubkey,
    outcome: VoteChoice,
    now: i64,
) -> (overridden: Result<AdminOverrideEvent, ResolutionError>)
    ensures
        !is_same_key(admin, params.authority) ==> {
            &&& overridden == Err::<AdminOverrideEvent, ResolutionError>(
                ResolutionError::Unauthorized,
            )
            &&& *final(state) == *old(state)
        },
        is_same_key(admin, params.authority) ==> {
            &&& overridden == Ok::<AdminOverrideEvent, ResolutionError>(
                (AdminOverrideEvent {
                    market_id: old(state).market_id,
                    admin,
                    outcome,
                    timestamp: now,
                }),
            )
            &&& *final(state) == old(state).closed_with(outcome, now)
        },
{
    if !same_key(&admin, &params.authority) {
        return Err(ResolutionError::Unauthorized);
    }
    state.is_finalized = true;
    state.outcome = Some(outcome);
    state.finalized_at = Some(now);
    Ok(AdminOverrideEvent { market_id: state.market_id, admin, outcome, timestamp: now })
}

/// Records the result of a vote held elsewhere. Only the platform authority
/// posts results; the dispute window of the result runs from `now` and must
/// end at a representable time.
pub fn post_vote_result(
    data: PostVoteResultData,
    params: &GlobalParameters,
    authority: Pubkey,
    now: i64,
    bump: u8,
) -> (posted: Result<(VoteResult, VoteResultPostedEvent), ResolutionError>)
    requires
        is_same_key(authority, params.authority) ==> i64::MIN <= now
            + params.dispute_window_seconds <= i64::MAX,
    ensures
        !is_same_key(authority, params.authority) ==> posted == Err::<
            (VoteResult, VoteResultPostedEvent),
            ResolutionError,
        >(ResolutionError::Unauthorized),
        is_same_key(authority, params.authority) ==> posted == Ok::<
            (VoteResult, VoteResultPostedEvent),
            ResolutionError,
        >(
            (
                VoteResult {
                    market_id: data.market_id,
                    outcome: data.outcome,
                    yes_vote_weight: data.yes_vote_weight,
                    no_vote_weight: data.no_vote_weight,
                    total_votes_count: data.total_votes_count,
                    merkle_root: data.merkle_root,
                    posted_at: now,
                    posted_by: authority,
                    dispute_window_end: (now + params.dispute_window_seconds) as i64,
                    bump,
                },
                VoteResultPostedEvent {
                    market_id: data.market_id,
                    outcome: data.outcome,
                    yes_vote_weight: data.yes_vote_weight,
                    no_vote_weight: data.no_vote_weight,
                    total_votes_count: data.total_votes_count,
                    merkle_root: data.merkle_root,
                    dispute_window_end: (now + params.dispute_window_seconds) as i64,
                    timestamp: now,
                },
            ),
        ),
{
    if !same_key(&authority, &params.authority) {
        return Err(ResolutionError::Unauthorized);
    }
    let dispute_window_end = now + params.dispute_window_seconds;
    let result = VoteResult {
        market_id: data.market_id,
        outcome: data.outcome,
        yes_vote_weight: data.yes_vote_weight,
        no_vote_weight: data.no_vote_weight,
        total_votes_count: data.total_votes_count,
        merkle_root: data.merkle_root,
        posted_at: now,
        posted_by: authority,
        dispute_window_end,
        bump,
    };
    let event = VoteResultPostedEvent {
        market_id: data.market_id,
        outcome: data.outcome,
        yes_vote_weight: data.yes_vote_weight,
        no_vote_weight: data.no_vote_weight,
        total_votes_count: data.total_votes_count,
        merkle_root: data.merkle_root,
        dispute_window_end,
        timestamp: now,
    };
    Ok((result, event))
}

/// A resolution that has been closed stays closed: it takes no more votes
/// and is not closed by its tally again. Only the authority can still set
/// another outcome.
pub proof fn lemma_closed_stays_closed(
    state: ResolutionState,
    outcome: VoteChoice,
    closed_at: i64,
    now: i64,
)
    ensures
        finalization_rejection(state.closed_with(outcome, closed_at), now) == Some(
            ResolutionError::MarketAlreadyFinalized,
        ),
        state.closed_with(outcome, closed_at).is_finalized,
        state.closed_with(outcome, closed_at).outcome == Some(outcome),
{
}

/// A side wins only with more votes than the other, and cancel wins
/// whenever neither side does.
pub proof fn lemma_outcome_is_majority(yes_votes: u64, no_votes: u64, cancel_votes: u64)
    ensures
        outcome_of(yes_votes, no_votes, cancel_votes) == VoteChoice::Yes ==> yes_votes > no_votes
            && yes_votes >= cancel_votes,
        outcome_of(yes_votes, no_votes, cancel_votes) == VoteChoice::No ==> no_votes > yes_votes
            && no_votes >= cancel_votes,
        yes_votes == no_votes ==> outcome_of(yes_votes, no_votes, cancel_votes)
            == VoteChoice::Cancel,
{
}

} // verus!
