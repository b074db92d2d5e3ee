//! Closing a proposal.

use vstd::prelude::*;
use crate::address::Address;
use crate::error::ErrorCode;
use crate::state::{Proposal, ProposalView};

verus! {

/// The accounts of `close_proposal`.
pub struct CloseProposal {
    /// The principal that asks for the closure.
    pub authority: Address,
    /// The proposal to close.
    pub proposal: Proposal,
}

/// What closing `proposal` on behalf of `caller` gives: `Unauthorized` unless the
/// caller is the proposal's authority; then `ProposalAlreadyClosed` if it is
/// closed; else the same proposal, closed.
pub open spec fn proposal_closed(proposal: ProposalView, caller: Seq<u8>) -> Result<
    ProposalView,
    ErrorCode,
> {
    if caller != proposal.authority {
        Err(ErrorCode::Unauthorized)
    } else if proposal.closed {
        Err(ErrorCode::ProposalAlreadyClosed)
    } else {
        Ok(ProposalView { closed: true, ..proposal })
    }
}

/// Closes the proposal, which freezes its tallies. Only the proposal's authority
/// may do so, and only once: anyone else gets `Unauthorized`, and a second
/// closure `ProposalAlreadyClosed`. A rejected call changes nothing.
pub fn close_proposal(ctx: &mut CloseProposal) -> (outcome: Result<(), ErrorCode>)
    ensures
        final(ctx).authority == old(ctx).authority,
        match proposal_closed(old(ctx).proposal@, old(ctx).authority@) {
            Ok(closed) => outcome is Ok && final(ctx).proposal@ == closed,
            Err(e) => outcome == Err::<(), ErrorCode>(e) && final(ctx).proposal == old(ctx).proposal,
        },
{
    if ctx.authority != ctx.proposal.authority {
        return Err(ErrorCode::Unauthorized);
    }
    if ctx.proposal.closed {
        return Err(ErrorCode::ProposalAlreadyClosed);
    }
    ctx.proposal.closed = true;
    Ok(())
}

} // verus!
