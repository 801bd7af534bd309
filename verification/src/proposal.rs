//! Proposals for new markets: a creator stakes a bond, the community votes,
//! and at least 60% yes among the votes approves the proposal.

use crate::bond::{bond_amount_for, bond_of_tier, BondTier};
use crate::parameters::GlobalParameters;
use crate::text::{text_fits, text_in_bounds, MAX_DESCRIPTION_LEN, MAX_TITLE_LEN};
use anchor_lang::prelude::Pubkey;
use vstd::prelude::*;

verus! {

/// The share of yes votes, in percent, from which a proposal is approved.
pub const APPROVAL_THRESHOLD_PERCENT: u64 = 60;

/// Where a proposal stands. `Approved` and `Rejected` are final.
#[derive(Clone, Copy, Debug, PartialEq, Eq, Structural)]
pub enum ProposalStatus {
    Pending,
    Approved,
    Rejected,
}

/// A vote on a proposal.
#[derive(Clone, Copy, Debug, PartialEq, Eq, Structural)]
pub enum VoteChoice {
    Yes,
    No,
}

/// Why an operation on a proposal is turned down.
#[derive(Clone, Copy, Debug, PartialEq, Eq, Structural)]
pub enum ProposalError {
    /// The title is empty or longer than 128 bytes.
    InvalidTitle,
    /// The description is empty or longer than 512 bytes.
    InvalidDescription,
    /// The end date is not in the future.
    InvalidEndDate,
    /// The proposal is no longer open for votes.
    ProposalNotOpen,
    /// The voting period is over.
    VotingEnded,
    /// The voting period still runs.
    VotingNotEnded,
    /// The proposal has been approved or rejected already.
    ProposalAlreadyProcessed,
    /// Nobody voted.
    NoVotes,
    /// Fewer than 60% of the votes are yes.
    InsufficientApproval,
    /// At least 60% of the votes are yes.
    ProposalNotRejected,
}

/// A proposal for a market.
#[derive(Debug, PartialEq, Eq)]
pub struct Proposal {
    pub proposal_id: u64,
    pub creator: Pubkey,
    pub title: String,
    pub description: String,
    pub bond_amount: u64,
    pub bond_tier: BondTier,
    /// The part paid on top of the bond that is never refunded.
    pub proposal_tax: u64,
    pub status: ProposalStatus,
    pub yes_votes: u32,
    pub no_votes: u32,
    pub total_voters: u32,
    pub created_at: i64,
    /// Votes are taken before this moment, the decision from it on.
    pub end_date: i64,
    pub processed_at: Option<i64>,
    /// The market that an approved proposal becomes.
    pub market_id: Option<u64>,
    pub bump: u8,
}

/// One voter's vote on one proposal.
#[derive(Clone, Copy, Debug, PartialEq, Eq)]
pub struct ProposalVoteRecord {
    pub proposal_id: u64,
    pub voter: Pubkey,
    pub vote_choice: VoteChoice,
    pub timestamp: i64,
    pub bump: u8,
}

/// A proposal was opened.
#[derive(Debug, PartialEq, Eq)]
pub struct ProposalCreatedEvent {
    pub proposal_id: u64,
    pub creator: Pubkey,
    pub title: String,
    pub bond_amount: u64,
    pub bond_tier: BondTier,
    pub proposal_tax: u64,
    pub end_date: i64,
    pub timestamp: i64,
}

/// A vote on a proposal was counted.
#[derive(Clone, Copy, Debug, PartialEq, Eq)]
pub struct ProposalVoteEvent {
    pub proposal_id: u64,
    pub voter: Pubkey,
    pub vote_choice: VoteChoice,
    pub timestamp: i64,
}

/// A proposal was approved.
#[derive(Clone, Copy, Debug, PartialEq, Eq)]
pub struct ProposalApprovedEvent {
    pub proposal_id: u64,
    pub market_id: u64,
    pub yes_votes: u32,
    pub no_votes: u32,
    pub yes_percentage: u16,
    pub timestamp: i64,
}

/// A proposal was rejected: what of the bond went back.
#[derive(Clone, Copy, Debug, PartialEq, Eq)]
pub struct ProposalRejectedEvent {
    pub proposal_id: u64,
    pub refund_amount: u64,
    pub yes_votes: u32,
    pub no_votes: u32,
    pub timestamp: i64,
}

impl Clone for Proposal {
    fn clone(&self) -> (copy: Self)
        ensures
            copy == *self,
    {
        Proposal {
            proposal_id: self.proposal_id,
            creator: self.creator,
            title: self.title.clone(),
            description: self.description.clone(),
            bond_amount: self.bond_amount,
            bond_tier: self.bond_tier,
            proposal_tax: self.proposal_tax,
            status: self.status,
            yes_votes: self.yes_votes,
            no_votes: self.no_votes,
            total_voters: self.total_voters,
            created_at: self.created_at,
            end_date: self.end_date,
            processed_at: self.processed_at,
            market_id: self.market_id,
            bump: self.bump,
        }
    }
}

impl Clone for ProposalCreatedEvent {
    fn clone(&self) -> (copy: Self)
        ensures
            copy == *self,
    {
        ProposalCreatedEvent {
            proposal_id: self.proposal_id,
            creator: self.creator,
            title: self.title.clone(),
            bond_amount: self.bond_amount,
            bond_tier: self.bond_tier,
            proposal_tax: self.proposal_tax,
            end_date: self.end_date,
            timestamp: self.timestamp,
        }
    }
}

/// The tax on a bond: one percent of it, rounded down.
pub open spec fn tax_on(bond_amount: u64) -> u64 {
    bond_amount / 100
}

/// The share of yes votes among `yes_votes + no_votes` votes, in percent,
/// rounded down.
pub open spec fn yes_percentage(yes_votes: u32, no_votes: u32) -> nat
    recommends
        yes_votes + no_votes > 0,
{
    (yes_votes * 100 / (yes_votes + no_votes)) as nat
}

/// Whether the votes approve: somebody voted, and at least 60% voted yes.
pub open spec fn votes_approve(yes_votes: u32, no_votes: u32) -> bool {
    yes_votes + no_votes > 0 && yes_percentage(yes_votes, no_votes) >= 60
}

impl Proposal {
    /// This proposal with one more vote for `choice` and one more voter.
    pub open spec fn with_vote(self, choice: VoteChoice) -> Self {
        let counted = Proposal { total_voters: (self.total_voters + 1) as u32, ..self };
        match choice {
            VoteChoice::Yes => Proposal { yes_votes: (self.yes_votes + 1) as u32, ..counted },
            VoteChoice::No => Proposal { no_votes: (self.no_votes + 1) as u32, ..counted },
        }
    }

    /// The votes cast so far for one choice.
    pub open spec fn votes_for(self, choice: VoteChoice) -> u32 {
        match choice {
            VoteChoice::Yes => self.yes_votes,
            VoteChoice::No => self.no_votes,
        }
    }
}

/// Why a new proposal is turned down, if it is: the first check that fails.
pub open spec fn proposal_rejection(
    title: Seq<char>,
    description: Seq<char>,
    end_date: i64,
    now: i64,
) -> Option<ProposalError> {
    if !text_fits(title, MAX_TITLE_LEN as nat) {
        Some(ProposalError::InvalidTitle)
    } else if !text_fits(description, MAX_DESCRIPTION_LEN as nat) {
        Some(ProposalError::InvalidDescription)
    } else if end_date <= now {
        Some(ProposalError::InvalidEndDate)
    } else {
        None
    }
}

/// Opens a proposal for a market with the bond of the chosen tier.
///
/// The caller moves the bond and its tax, one percent on top, from the
/// creator to the proposal; together they must be a representable amount.
pub fn create_proposal(
    params: &GlobalParameters,
    creator: Pubkey,
    proposal_id: u64,
    title: String,
    description: String,
    bond_tier: BondTier,
    end_date: i64,
    now: i64,
    bump: u8,
) -> (created: Result<(Proposal, ProposalCreatedEvent), ProposalError>)
    requires
        proposal_rejection(title@, description@, end_date, now) is None ==> bond_of_tier(
            *params,
            bond_tier,
        ) + tax_on(bond_of_tier(*params, bond_tier)) <= u64::MAX,
    ensures
        match proposal_rejection(title@, description@, end_date, now) {
            Some(error) => created == Err::<(Proposal, ProposalCreatedEvent), ProposalError>(error),
            None => created matches Ok((proposal, event)) && {
                &&& proposal.proposal_id == proposal_id
                &&& proposal.creator == creator
                &&& proposal.title@ == title@
                &&& proposal.description@ == description@
                &&& proposal.bond_amount == bond_of_tier(*params, bond_tier)
                &&& proposal.bond_tier == bond_tier
                &&& proposal.proposal_tax == tax_on(bond_of_tier(*params, bond_tier))
                &&& proposal.status == ProposalStatus::Pending
                &&& proposal.yes_votes == 0
                &&& proposal.no_votes == 0
                &&& proposal.total_voters == 0
                &&& proposal.created_at == now
                &&& proposal.end_date == end_date
                &&& proposal.processed_at is None
                &&& proposal.market_id is None
                &&& proposal.bump == bump
                &&& proposal.bond_amount + proposal.proposal_tax <= u64::MAX
                &&& event.proposal_id == proposal_id
                &&& event.creator == creator
                &&& event.title@ == title@
                &&& event.bond_amount == proposal.bond_amount
                &&& event.bond_tier == bond_tier
                &&& event.proposal_tax == proposal.proposal_tax
                &&& event.end_date == end_date
                &&& event.timestamp == now
            },
        },
{
    if !text_in_bounds(title.as_str(), MAX_TITLE_LEN) {
        return Err(ProposalError::InvalidTitle);
    }
    if !text_in_bounds(description.as_str(), MAX_DESCRIPTION_LEN) {
        return Err(ProposalError::InvalidDescription);
    }
    if end_date <= now {
        return Err(ProposalError::InvalidEndDate);
    }
    let bond_amount = bond_amount_for(params, bond_tier);
    let proposal_tax = bond_amount / 100;
    let event = ProposalCreatedEvent {
        proposal_id,
        creator,
        title: title.clone(),
        bond_amount,
        bond_tier,
        proposal_tax,
        end_date,
        timestamp: now,
    };
    let proposal = Proposal {
        proposal_id,
        creator,
        title,
        description,
        bond_amount,
        bond_tier,
        proposal_tax,
        status: ProposalStatus::Pending,
        yes_votes: 0,
        no_votes: 0,
        total_voters: 0,
        created_at: now,
        end_date,
        processed_at: None,
        market_id: None,
        bump,
    };
    Ok((proposal, event))
}

/// What the creator of a proposal pays for a tier: the bond and its tax
/// together, or nothing where they are no representable amount.
pub fn required_deposit(params: &GlobalParameters, bond_tier: BondTier) -> (total: Option<u64>)
    ensures
        bond_of_tier(*params, bond_tier) + tax_on(bond_of_tier(*params, bond_tier)) <= u64::MAX
            ==> total == Some(
            (bond_of_tier(*params, bond_tier) + tax_on(bond_of_tier(*params, bond_tier))) as u64,
        ),
        bond_of_tier(*params, bond_tier) + tax_on(bond_of_tier(*params, bond_tier)) > u64::MAX
            ==> total is None,
{
    let bond_amount = bond_amount_for(params, bond_tier);
    bond_amount.checked_add(bond_amount / 100)
}

/// Tells whether the counters of a proposal have room for one more vote.
pub fn vote_has_room(proposal: &Proposal, vote_choice: VoteChoice) -> (room: bool)
    ensures
        room == (proposal.votes_for(vote_choice) < u32::MAX && proposal.total_voters < u32::MAX),
{
    let votes = match vote_choice {
        VoteChoice::Yes => proposal.yes_votes,
        VoteChoice::No => proposal.no_votes,
    };
    votes < u32::MAX && proposal.total_voters < u32::MAX
}

/// Why a vote is turned down, if it is: the first check that fails.
pub open spec fn vote_rejection(proposal: Proposal, now: i64) -> Option<ProposalError> {
    if proposal.status != ProposalStatus::Pending {
        Some(ProposalError::ProposalNotOpen)
    } else if now >= proposal.end_date {
        Some(ProposalError::VotingEnded)
    } else {
        None
    }
}

/// Counts one vote on a pending proposal whose voting period still runs.
/// The counters must have room for it.
pub fn vote_on_proposal(
    proposal: &mut Proposal,
    voter: Pubkey,
    vote_choice: VoteChoice,
    now: i64,
    bump: u8,
) -> (voted: Result<(ProposalVoteRecord, ProposalVoteEvent), ProposalError>)
    requires
        vote_rejection(*old(proposal), now) is None ==> old(proposal).votes_for(vote_choice)
            < u32::MAX && old(proposal).total_voters < u32::MAX,
    ensures
        match vote_rejection(*old(proposal), now) {
            Some(error) => {
                &&& voted == Err::<(ProposalVoteRecord, ProposalVoteEvent), ProposalError>(error)
                &&& *final(proposal) == *old(proposal)
            },
            None => {
                &&& voted == Ok::<(ProposalVoteRecord, ProposalVoteEvent), ProposalError>(
                    (
                        ProposalVoteRecord {
                            proposal_id: old(proposal).proposal_id,
                            voter,
                            vote_choice,
                            timestamp: now,
                            bump,
                        },
                        ProposalVoteEvent {
                            proposal_id: old(proposal).proposal_id,
                            voter,
                            vote_choice,
                            timestamp: now,
                        },
                    ),
                )
                &&& *final(proposal) == old(proposal).with_vote(vote_choice)
            },
        },
{
    if proposal.status != ProposalStatus::Pending {
        return Err(ProposalError::ProposalNotOpen);
    }
    if now >= proposal.end_date {
        return Err(ProposalError::VotingEnded);
    }
    match vote_choice {
        VoteChoice::Yes => {
            proposal.yes_votes = proposal.yes_votes + 1;
        },
        VoteChoice::No => {
            proposal.no_votes = proposal.no_votes + 1;
        },
    }
    proposal.total_voters = proposal.total_voters + 1;
    let record = ProposalVoteRecord {
        proposal_id: proposal.proposal_id,
        voter,
        vote_choice,
        timestamp: now,
        bump,
    };
    let event = ProposalVoteEvent {
        proposal_id: proposal.proposal_id,
        voter,
        vote_choice,
        timestamp: now,
    };
    Ok((record, event))
}

/// Why a proposal cannot be decided yet or any more, if so: it must be
/// pending and its voting period over.
pub open spec fn decision_rejection(proposal: Proposal, now: i64) -> Option<ProposalError> {
    if proposal.status != ProposalStatus::Pending {
        Some(ProposalError::ProposalAlreadyProcessed)
    } else if now < proposal.end_date {
        Some(ProposalError::VotingNotEnded)
    } else {
        None
    }
}

/// Why an approval is turned down, if it is: the first check that fails.
pub open spec fn approval_rejection(proposal: Proposal, now: i64) -> Option<ProposalError> {
    if decision_rejection(proposal, now) is Some {
        decision_rejection(proposal, now)
    } else if proposal.yes_votes + proposal.no_votes == 0 {
        Some(ProposalError::NoVotes)
    } else if yes_percentage(proposal.yes_votes, proposal.no_votes) < 60 {
        Some(ProposalError::InsufficientApproval)
    } else {
        None
    }
}

/// Why a rejection is turned down, if it is: the first check that fails.
pub open spec fn rejection_rejection(proposal: Proposal, now: i64) -> Option<ProposalError> {
    if decision_rejection(proposal, now) is Some {
        decision_rejection(proposal, now)
    } else if votes_approve(proposal.yes_votes, proposal.no_votes) {
        Some(ProposalError::ProposalNotRejected)
    } else {
        None
    }
}

/// Computes the share of yes votes in percent.
fn percentage_of_yes(yes_votes: u32, no_votes: u32) -> (percentage: u64)
    requires
        yes_votes + no_votes > 0,
    ensures
        percentage == yes_percentage(yes_votes, no_votes),
        percentage <= 100,
{
    let total: u64 = yes_votes as u64 + no_votes as u64;
    let scaled: u64 = yes_votes as u64 * 100;
    assert(scaled / total <= 100) by (nonlinear_arith)
        requires
            scaled == yes_votes * 100,
            total == yes_votes + no_votes,
            total > 0,
            no_votes >= 0,
    ;
    scaled / total
}

/// Approves a proposal whose voting period is over, if at least 60% of the
/// votes are yes, and names the market that it becomes.
pub fn approve_proposal(proposal: &mut Proposal, market_id: u64, now: i64) -> (approved: Result<
    ProposalApprovedEvent,
    ProposalError,
>)
    ensures
        match approval_rejection(*old(proposal), now) {
            Some(error) => {
                &&& approved == Err::<ProposalApprovedEvent, ProposalError>(error)
                &&& *final(proposal) == *old(proposal)
            },
            None => {
                &&& approved == Ok::<ProposalApprovedEvent, ProposalError>(
                    (ProposalApprovedEvent {
                        proposal_id: old(proposal).proposal_id,
                        market_id,
                        yes_votes: old(proposal).yes_votes,
                        no_votes: old(proposal).no_votes,
                        yes_percentage: yes_percentage(
                            old(proposal).yes_votes,
                            old(proposal).no_votes,
                        ) as u16,
                        timestamp: now,
                    }),
                )
                &&& *final(proposal) == (Proposal {
                    status: ProposalStatus::Approved,
                    processed_at: Some(now),
                    market_id: Some(market_id),
                    ..*old(proposal)
                })
            },
        },
{
    if proposal.status != ProposalStatus::Pending {
        return Err(ProposalError::ProposalAlreadyProcessed);
    }
    if now < proposal.end_date {
        return Err(ProposalError::VotingNotEnded);
    }
    if proposal.yes_votes == 0 && proposal.no_votes == 0 {
        return Err(ProposalError::NoVotes);
    }
    let percentage = percentage_of_yes(proposal.yes_votes, proposal.no_votes);
    if percentage < APPROVAL_THRESHOLD_PERCENT {
        return Err(ProposalError::InsufficientApproval);
    }
    proposal.status = ProposalStatus::Approved;
    proposal.processed_at = Some(now);
    proposal.market_id = Some(market_id);
    Ok(
        ProposalApprovedEvent {
            proposal_id: proposal.proposal_id,
            market_id,
            yes_votes: proposal.yes_votes,
            no_votes: proposal.no_votes,
            yes_percentage: percentage as u16,
            timestamp: now,
        },
    )
}

/// Rejects a proposal whose voting period is over, if nobody voted or fewer
/// than 60% of the votes are yes, and refunds half the bond. The caller
/// moves the event's refund from the proposal to the creator.
pub fn reject_proposal(proposal: &mut Proposal, now: i64) -> (rejected: Result<
    ProposalRejectedEvent,
    ProposalError,
>)
    ensures
        match rejection_rejection(*old(proposal), now) {
            Some(error) => {
                &&& rejected == Err::<ProposalRejectedEvent, ProposalError>(error)
                &&& *final(proposal) == *old(proposal)
            },
            None => {
                &&& rejected == Ok::<ProposalRejectedEvent, ProposalError>(
                    (ProposalRejectedEvent {
                        proposal_id: old(proposal).proposal_id,
                        refund_amount: old(proposal).bond_amount / 2,
                        yes_votes: old(proposal).yes_votes,
                        no_votes: old(proposal).no_votes,
                        timestamp: now,
                    }),
                )
                &&& *final(proposal) == (Proposal {
                    status: ProposalStatus::Rejected,
                    processed_at: Some(now),
                    ..*old(proposal)
                })
            },
        },
{
    if proposal.status != ProposalStatus::Pending {
        return Err(ProposalError::ProposalAlreadyProcessed);
    }
    if now < proposal.end_date {
        return Err(ProposalError::VotingNotEnded);
    }
    let is_rejected = if proposal.yes_votes == 0 && proposal.no_votes == 0 {
        true
    } else {
        percentage_of_yes(proposal.yes_votes, proposal.no_votes) < APPROVAL_THRESHOLD_PERCENT
    };
    if !is_rejected {
        return Err(ProposalError::ProposalNotRejected);
    }
    let refund_amount = proposal.bond_amount / 2;
    proposal.status = ProposalStatus::Rejected;
    proposal.processed_at = Some(now);
    Ok(
        ProposalRejectedEvent {
            proposal_id: proposal.proposal_id,
            refund_amount,
            yes_votes: proposal.yes_votes,
            no_votes: proposal.no_votes,
            timestamp: now,
        },
    )
}

/// A proposal whose voting period is over can always be decided, and in one
/// way only: exactly one of approval and rejection accepts it. Before that,
/// and once it has been decided, neither does.
pub proof fn lemma_one_decision(proposal: Proposal, now: i64)
    ensures
        decision_rejection(proposal, now) is None ==> (approval_rejection(proposal, now) is None
            <==> rejection_rejection(proposal, now) is Some),
        decision_rejection(proposal, now) is Some ==> approval_rejection(proposal, now) is Some
            && rejection_rejection(proposal, now) is Some,
{
}

/// A proposal that has been decided stays decided: it takes no more votes
/// and no second decision.
pub proof fn lemma_decided_stays_decided(proposal: Proposal, now: i64)
    requires
        proposal.status != ProposalStatus::Pending,
    ensures
        vote_rejection(proposal, now) == Some(ProposalError::ProposalNotOpen),
        approval_rejection(proposal, now) == Some(ProposalError::ProposalAlreadyProcessed),
        rejection_rejection(proposal, now) == Some(ProposalError::ProposalAlreadyProcessed),
{
}

} // verus!
