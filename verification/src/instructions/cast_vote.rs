//! Casting a vote on a proposal.

use vstd::prelude::*;
use crate::address::Address;
use crate::credits::{credits, credits_of};
use crate::error::ErrorCode;
use crate::state::{Proposal, ProposalView, Vote, VoteType, VoteView};
use crate::token::{balance_held, balance_of, TokenAccount, TokenAccountView};

verus! {

/// The accounts of `cast_vote`.
pub struct CastVote {
    /// The principal that votes.
    pub voter: Address,
    /// The proposal voted on.
    pub proposal: Proposal,
    /// The record to fill in, at the address derived from voter and proposal.
    pub vote_account: Vote,
    /// The account whose balance gives the vote its weight.
    pub creator_token_account: TokenAccount,
    /// The program under which that balance must be held.
    pub token_program: Address,
}

/// The proposal after a vote of the given weight was added to the tally of its direction.
pub open spec fn tallied(proposal: ProposalView, direction: VoteType, weight: nat) -> ProposalView {
    match direction {
        VoteType::No => ProposalView { no_votes: proposal.no_votes + weight, ..proposal },
        VoteType::Yes => ProposalView { yes_votes: proposal.yes_votes + weight, ..proposal },
    }
}

/// What a vote of `voter` on `proposal` gives. It is rejected with
/// `ProposalClosed` if the proposal is closed; else with `InvalidVoteType` if
/// the direction is neither 0 nor 1; else with `AssetAccountMismatch` if the
/// account proves no balance for the voter. Otherwise the vote carries the floor
/// of the square root of the balance as credits, and the proposal has them added
/// to the tally of the vote's direction.
pub open spec fn vote_cast(
    proposal: ProposalView,
    voter: Seq<u8>,
    vote_type: u8,
    account: TokenAccountView,
    token_program: Seq<u8>,
) -> Result<(ProposalView, VoteView), ErrorCode> {
    if proposal.closed {
        Err(ErrorCode::ProposalClosed)
    } else {
        match (VoteType::from_code(vote_type), balance_held(account, voter, token_program)) {
            (Err(e), _) => Err(e),
            (Ok(_), Err(e)) => Err(e),
            (Ok(direction), Ok(balance)) => {
                let weight = credits_of(balance) as nat;
                Ok(
                    (
                        tallied(proposal, direction, weight),
                        VoteView { vote_type: direction, authority: voter, credits: weight },
                    ),
                )
            },
        }
    }
}

/// The tally that the vote would raise has room for it: if the vote is to be
/// accepted, neither tally of the proposal leaves the 64-bit range.
pub open spec fn vote_fits(
    proposal: ProposalView,
    voter: Seq<u8>,
    vote_type: u8,
    account: TokenAccountView,
    token_program: Seq<u8>,
) -> bool {
    vote_cast(proposal, voter, vote_type, account, token_program) matches Ok((tallied, _))
        ==> tallied.fits()
}

/// Tests whether the tally that the vote would raise has room for it, which
/// `cast_vote` asks of its caller. A vote that is to be rejected always fits.
pub fn vote_has_room(
    proposal: &Proposal,
    voter: &Address,
    vote_type: u8,
    account: &TokenAccount,
    token_program: &Address,
) -> (fits: bool)
    ensures
        fits == vote_fits(proposal@, voter@, vote_type, account@, token_program@),
{
    if proposal.closed {
        return true;
    }
    let direction = match VoteType::from_u8(vote_type) {
        Ok(direction) => direction,
        Err(_) => {
            return true;
        },
    };
    let balance = match balance_of(account, voter, token_program) {
        Ok(balance) => balance,
        Err(_) => {
            return true;
        },
    };
    let voting_credits = credits(balance);
    match direction {
        VoteType::No => voting_credits <= u64::MAX - proposal.no_votes,
        VoteType::Yes => voting_credits <= u64::MAX - proposal.yes_votes,
    }
}

/// Casts the voter's vote: fills in the vote record and adds its credits, the
/// floor of the square root of the voter's balance, to the proposal's tally of
/// the chosen direction. A balance of zero gives a vote of zero credits, which
/// counts as cast. A rejected call changes nothing. The raised tally must fit in
/// 64 bits, which `vote_has_room` tests.
pub fn cast_vote(ctx: &mut CastVote, vote_type: u8) -> (outcome: Result<(), ErrorCode>)
    requires
        vote_fits(
            old(ctx).proposal@,
            old(ctx).voter@,
            vote_type,
            old(ctx).creator_token_account@,
            old(ctx).token_program@,
        ),
    ensures
        final(ctx).voter == old(ctx).voter,
        final(ctx).creator_token_account == old(ctx).creator_token_account,
        final(ctx).token_program == old(ctx).token_program,
        match vote_cast(
            old(ctx).proposal@,
            old(ctx).voter@,
            vote_type,
            old(ctx).creator_token_account@,
            old(ctx).token_program@,
        ) {
            Ok((proposal, vote)) => {
                &&& outcome is Ok
                &&& final(ctx).proposal@ == proposal
                &&& final(ctx).vote_account@ == vote
            },
            Err(e) => {
                &&& outcome == Err::<(), ErrorCode>(e)
                &&& final(ctx).proposal == old(ctx).proposal
                &&& final(ctx).vote_account == old(ctx).vote_account
            },
        },
{
    if ctx.proposal.closed {
        return Err(ErrorCode::ProposalClosed);
    }
    let direction = match VoteType::from_u8(vote_type) {
        Ok(direction) => direction,
        Err(e) => {
            return Err(e);
        },
    };
    let balance = match balance_of(&ctx.creator_token_account, &ctx.voter, &ctx.token_program) {
        Ok(balance) => balance,
        Err(e) => {
            return Err(e);
        },
    };
    let voting_credits = credits(balance);
    ctx.vote_account = Vote { vote_type: direction, authority: ctx.voter, credits: voting_credits };
    match direction {
        VoteType::No => {
            ctx.proposal.no_votes = ctx.proposal.no_votes + voting_credits;
        },
        VoteType::Yes => {
            ctx.proposal.yes_votes = ctx.proposal.yes_votes + voting_credits;
        },
    }
    Ok(())
}

} // verus!
